//! A small actor core: a service owns its state, takes typed messages from any
//! number of addresses through one mailbox, and answers calls over single-use
//! reply channels.
//!
//! Nothing in this crate blocks or awaits. The run loop is a state machine that
//! is advanced one step at a time with the waker of the task that drives it, and
//! a call hands back the receiving end of its reply channel.

pub mod address;
pub mod context;
pub mod envelop;
pub mod error;
pub mod handler;
pub mod lifecycle;
mod mailbox;
pub mod model;
pub mod reply;
pub mod service;

pub use address::Address;
pub use context::{Context, RunLoop};
pub use envelop::{Dispatch, Envelope, Slot};
pub use error::Error;
pub use handler::{Handler, Message};
pub use lifecycle::{LoopState, Phase, Step};
pub use model::{Event, Parcel, World};
pub use reply::Pending;
pub use service::Service;
