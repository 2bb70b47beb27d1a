//! A multipath packet scheduler for a QUIC transport: for every outbound
//! packet it decides which of the validated network paths carries it, and,
//! under the redundant policy, sees to it that the same stream data is
//! offered again on every other path.
//!
//! The scheduler performs no I/O and changes nothing of the connection but
//! the reinjection queue. It is called once for each outbound packet
//! ([`MultipathScheduler::on_select`]) and once after the packet was sent
//! ([`MultipathScheduler::on_sent`]), and sees the connection through three
//! views that are handed to each call: the paths ([`PathMap`]), the packet
//! number spaces ([`PacketNumSpaceMap`]) and the streams ([`StreamMap`]).
//!
//! - [`algorithm`]: the algorithms and their names
//! - [`path`], [`space`], [`stream`]: the three views
//! - [`rank`]: which path is preferred to which
//! - [`scheduler`]: the interface of a strategy, and the factory
//! - [`minrtt`], [`redundant`]: the two strategies
//! - [`client`]: the bookkeeping of a benchmarking client

pub mod algorithm;
pub mod client;
pub mod error;
pub mod minrtt;
pub mod path;
pub mod rank;
pub mod redundant;
pub mod scheduler;
pub mod space;
pub mod stream;

pub use algorithm::reinjection_required;
pub use algorithm::MultipathAlgorithm;
pub use error::Error;
pub use minrtt::MinRttScheduler;
pub use path::Path;
pub use path::PathEvent;
pub use path::PathMap;
pub use path::PathState;
pub use path::MIN_DATAGRAM;
pub use redundant::RedundantScheduler;
pub use redundant::SentRecord;
pub use redundant::SENT_LOG_CAPACITY;
pub use scheduler::build_multipath_scheduler;
pub use scheduler::MultipathConfig;
pub use scheduler::MultipathScheduler;
pub use scheduler::Scheduler;
pub use space::PacketNumSpace;
pub use space::PacketNumSpaceMap;
pub use space::SentPacket;
pub use stream::ReinjectionMarker;
pub use stream::StreamMap;
pub use stream::StreamRange;
