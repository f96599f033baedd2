//! Routing of incoming protocol frames to the consumers that registered for
//! them, with a bounded buffer for the frames that nobody claimed.

pub mod channel;
pub mod filter;
pub mod frame;
pub mod ring;
pub mod table;

pub use filter::{Dispatch, MessageFilter, Route, FANOUT_CAPACITY, STREAM_CAPACITY, UNMATCHED_CAPACITY};
pub use frame::{Frame, JobId, Notification};
pub use ring::RingBuffer;
