//! A shared rate limit for any number of producers.
//!
//! A [`ThrottlePool`] owns a fixed table of admission slots. Each admission
//! claims one slot for one window, so no window ever sees more admissions than
//! the pool has slots. The pool never waits by itself: a scan round either
//! admits the caller or says how long the caller should sleep before the next
//! round, and the caller does the sleeping. [`Throttled`] sequences "admit,
//! then produce one item" for a lazy sequence in the same way.
//!
//! All times are whole nanoseconds on one monotonic clock chosen by the
//! caller.

pub mod capacity;
pub mod error;
pub mod pool;
pub mod rate;
pub mod slot;
pub mod stream;

pub use error::ErrorKind;
pub use pool::{QueueStep, ThrottlePool};
pub use rate::ThrottleRate;
pub use slot::{HoldHandle, Slot, Verdict};
pub use stream::{Action, Event, State, Throttled};
