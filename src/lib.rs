//! An in-memory publish/subscribe fan-out of server-sent event frames.
//!
//! A [`Broadcaster`] holds the write ends of bounded subscriber queues. It
//! formats each event as a text frame, offers it to every queue without
//! blocking, and on each liveness sweep keeps exactly the subscribers whose
//! queues accepted the probe frame.
pub mod frame;
pub mod sweep;
pub mod channel;
pub mod broadcaster;

pub use frame::{event_frame, connected_frame, ping_frame};
pub use sweep::retain_accepted;
pub use broadcaster::{Broadcaster, Client, QUEUE_CAPACITY, SWEEP_INTERVAL_SECS};
