//! The bookkeeping of a benchmarking client that drives connections over
//! the transport: what it counts, when it sends, and when it stops.
//!
//! Nothing here performs I/O. The program around it makes the connections,
//! reports each event to these types, and does what they answer.

pub mod context;
pub mod sample;
pub mod sender;
pub mod worker;
