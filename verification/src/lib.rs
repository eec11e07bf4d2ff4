//! A synchronous driver for a single future.
//!
//! [`Signal`] is a one-slot notification cell shared between the thread
//! that drives a future and whoever wakes it. [`Driver`] owns one future
//! and advances it one turn at a time: poll, and while the future is not
//! ready, block on the signal until the future's waker fires.
//!
//! Both are stated against small mathematical models: [`SignalState`]
//! with its two transitions, [`Session`], a signal together with its one
//! waiting thread, and [`Progress`], the position of a drive together
//! with the number of polls and waits made so far.
//!
//! A driver makes one turn per call. The caller repeats the call until
//! the future has given its value; how often that is, nothing bounds.

pub mod driver;
pub mod signal;

pub use driver::Driver;
pub use driver::DriverState;
pub use driver::FutureExt;
pub use driver::Progress;
pub use signal::Event;
pub use signal::MultipleWaiters;
pub use signal::Session;
pub use signal::Signal;
pub use signal::SignalState;
