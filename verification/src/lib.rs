//! A persistent email campaign scheduler.
//!
//! Operators describe recipients (clients and named client groups), compose
//! emails, and register time-based or repetition-based triggers that cause an
//! email to be delivered. The core is the trigger scheduler: a composable,
//! generation-counted firing engine. This crate holds the verified logic of
//! that engine — calendar resolution, generation accounting, trigger
//! composition — together with the catalog value types (clients, groups,
//! emails, tags).

use vstd::prelude::*;

pub mod address;
pub mod client;
mod error;
pub mod email;
mod ids;
pub mod mailer;
pub mod scheduler;

pub use error::ValidationError;

verus! {

/// The bound every trigger channel is created with: a producer that runs
/// ahead of its consumer by more than this suspends until the consumer
/// drains.
pub const CHANNEL_CAPACITY: usize = 4;

} // verus!
