//! A single-producer, single-consumer channel core for cooperative tasks.
//!
//! The crate verifies the logic of an SPSC message channel: a bounded ring
//! buffer with producer/consumer position counters, an unbounded queue of
//! fixed-size blocks, a single-slot task notifier, and the poll-level channel
//! operations built on them. Each operation is a state-machine step: it either
//! completes, or reports `Pending` after registering a continuation handle and
//! says which previously registered handle the scheduler must now resume.
//! A driver (an async executor adapter, or a test) owns the channel state,
//! interleaves producer-side and consumer-side steps, and resumes the handles
//! the steps return.

pub mod bounded;
pub mod error;
pub mod fifo;
pub mod handoff;
pub mod notifier;
pub mod poll;
mod padded;
pub mod queue;
pub mod ring;
pub mod unbounded;

pub use crate::bounded::{channel, exact_channel, Channel, ExactChannel, P2Channel};
pub use crate::error::{SendError, TryRecvError, TrySendError};
pub use crate::poll::{Poll, SendStep};
pub use crate::unbounded::{unbounded_channel, UnboundedChannel};
