//! The life of a service, as its author sees it.

use vstd::prelude::*;
use crate::address::Address;
use crate::context::{Context, RunLoop};
use crate::lifecycle::LoopState;

verus! {

/// A unit of state that one run loop owns and works on, one message at a
/// time.
pub trait Service: Send + Sized + 'static {
    /// Binds the service to a fresh context. The loop that comes back has
    /// done nothing yet: whoever holds it drives it with [`RunLoop::step`].
    fn start(self) -> (begun: (Address<Self>, RunLoop<Self>))
        ensures
            begun.1@ == LoopState::initial(),
            begun.1.service() == self,
            !begun.1.context().paused(),
            !begun.1.context().stop_requested(),
            begun.1.context().anchored(),
            begun.0 == begun.1.context().home(),
    {
        Context::new().run(self)
    }

    /// Binds the service to `ctx`, whose addresses may have been handed out
    /// before.
    fn start_by_context(self, ctx: Context<Self>) -> (begun: (Address<Self>, RunLoop<Self>))
        ensures
            begun.1@ == LoopState::initial(),
            begun.1.service() == self,
            begun.1.context() == ctx,
            ctx.anchored() ==> begun.0 == ctx.home(),
    {
        ctx.run(self)
    }

    /// What the startup hook may do: from which service and context to
    /// which. A service that says nothing here promises nothing.
    open spec fn starts(before: Self, ctx_before: Context<Self>, after: Self, ctx_after: Context<Self>) -> bool {
        true
    }

    /// What the shutdown hook may do: from which service and context to
    /// which. A service that says nothing here promises nothing.
    open spec fn stops(before: Self, ctx_before: Context<Self>, after: Self, ctx_after: Context<Self>) -> bool {
        true
    }

    /// Runs once, before the first envelope is taken.
    fn started(&mut self, ctx: &mut Context<Self>)
        ensures
            Self::starts(*old(self), *old(ctx), *final(self), *final(ctx)),
    ;

    /// Runs once, after the mailbox has yielded its last envelope.
    fn stopped(&mut self, ctx: &mut Context<Self>)
        ensures
            Self::stops(*old(self), *old(ctx), *final(self), *final(ctx)),
    ;
}

} // verus!
