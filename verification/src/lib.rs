//! A minimal cooperative task-execution core: a suspend/resume computation
//! abstraction, hand-written state machines that compose such computations
//! sequentially, a single-threaded driver that advances a top-level
//! computation to completion, and a bounded FIFO channel with backpressure
//! and closed-channel signaling.

pub mod channel;
pub mod driver;
pub mod machines;
pub mod task;
