//! Messages, and what a service does with them.

use vstd::prelude::*;
use crate::context::Context;
use crate::service::Service;

verus! {

/// A value that can be sent to a service. It fixes the type of the answer.
pub trait Message {
    /// What a handler hands back for this message.
    type Result;
}

/// What a service does with one kind of message.
pub trait Handler<M: Message>: Service {
    /// What one run of the handler may do: from which service and context
    /// to which, with which answer.
    ///
    /// A service that says nothing here promises nothing. A service that
    /// is verified states its handler's effect here, and whoever dispatches
    /// to it learns that effect from the contracts of the library.
    open spec fn handles(
        before: Self,
        message: M,
        ctx_before: Context<Self>,
        after: Self,
        ctx_after: Context<Self>,
        answer: M::Result,
    ) -> bool {
        true
    }

    fn handler(&mut self, message: M, ctx: &mut Context<Self>) -> (answer: M::Result)
        ensures
            Self::handles(*old(self), message, *old(ctx), *final(self), *final(ctx), answer),
    ;
}

/// Whether one run of the handler on `message` can lead from `before` to
/// `after`, whatever it answers.
pub open spec fn handled<S: Handler<M>, M: Message>(
    before: S,
    message: M,
    ctx_before: Context<S>,
    after: S,
    ctx_after: Context<S>,
) -> bool {
    exists|answer: M::Result| S::handles(before, message, ctx_before, after, ctx_after, answer)
}

} // verus!
