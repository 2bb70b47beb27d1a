//! The counters of a worker and of the whole client.
//!
//! Request times are whole microseconds; so are points in time, counted from
//! the start of the client.

use vstd::prelude::*;

verus! {

/// The packet and byte counts of a connection, or of several added up.
#[derive(Debug, Clone, Copy, PartialEq, Eq, Structural)]
pub struct ConnStats {
    /// Packets received.
    pub recv_count: u64,
    /// Packets sent.
    pub sent_count: u64,
    /// Packets declared lost.
    pub lost_count: u64,
    /// Bytes received.
    pub recv_bytes: u64,
    /// Bytes sent.
    pub sent_bytes: u64,
    /// Bytes declared lost.
    pub lost_bytes: u64,
}

impl ConnStats {
    /// All counts zero.
    pub fn new() -> (r: ConnStats)
        ensures
            r == (ConnStats {
                recv_count: 0,
                sent_count: 0,
                lost_count: 0,
                recv_bytes: 0,
                sent_bytes: 0,
                lost_bytes: 0,
            }),
    {
        ConnStats {
            recv_count: 0,
            sent_count: 0,
            lost_count: 0,
            recv_bytes: 0,
            sent_bytes: 0,
            lost_bytes: 0,
        }
    }

    /// Whether every count of `one` can be added to that of `self`.
    pub open spec fn fits(&self, one: &ConnStats) -> bool {
        &&& self.recv_count + one.recv_count <= u64::MAX
        &&& self.sent_count + one.sent_count <= u64::MAX
        &&& self.lost_count + one.lost_count <= u64::MAX
        &&& self.recv_bytes + one.recv_bytes <= u64::MAX
        &&& self.sent_bytes + one.sent_bytes <= u64::MAX
        &&& self.lost_bytes + one.lost_bytes <= u64::MAX
    }

    /// The counts of `self` and `one` added up.
    pub open spec fn plus(&self, one: &ConnStats) -> ConnStats
        recommends
            self.fits(one),
    {
        ConnStats {
            recv_count: (self.recv_count + one.recv_count) as u64,
            sent_count: (self.sent_count + one.sent_count) as u64,
            lost_count: (self.lost_count + one.lost_count) as u64,
            recv_bytes: (self.recv_bytes + one.recv_bytes) as u64,
            sent_bytes: (self.sent_bytes + one.sent_bytes) as u64,
            lost_bytes: (self.lost_bytes + one.lost_bytes) as u64,
        }
    }

    /// Whether every count of `one` can be added to that of `self`.
    pub fn can_add(&self, one: &ConnStats) -> (r: bool)
        ensures
            r == self.fits(one),
    {
        self.recv_count <= u64::MAX - one.recv_count && self.sent_count <= u64::MAX
            - one.sent_count && self.lost_count <= u64::MAX - one.lost_count && self.recv_bytes
            <= u64::MAX - one.recv_bytes && self.sent_bytes <= u64::MAX - one.sent_bytes
            && self.lost_bytes <= u64::MAX - one.lost_bytes
    }
}

/// Adds the counts of one connection to a total.
pub fn update_conn_stats(total: &mut ConnStats, one: &ConnStats)
    requires
        old(total).fits(one),
    ensures
        *final(total) == old(total).plus(one),
{
    total.recv_count += one.recv_count;
    total.sent_count += one.sent_count;
    total.lost_count += one.lost_count;
    total.recv_bytes += one.recv_bytes;
    total.sent_bytes += one.sent_bytes;
    total.lost_bytes += one.lost_bytes;
}

/// Context used for single thread worker.
pub struct WorkerContext {
    /// The session to resume connections with, if any.
    pub session: Option<Vec<u8>>,
    /// Requests sent.
    pub request_sent: u64,
    /// Requests that ended, well or not.
    pub request_done: u64,
    /// Requests that were answered in full.
    pub request_success: u64,
    /// The number of request times that are kept.
    pub max_sample: usize,
    /// The request times kept.
    pub request_time_samples: Vec<u128>,
    /// Connections begun.
    pub conn_total: u64,
    /// Connections whose handshake was completed.
    pub conn_handshake_success: u64,
    /// Connections closed.
    pub conn_finish: u64,
    /// Connections closed by the application, on either side.
    pub conn_finish_success: u64,
    /// Connections that ended in any other way.
    pub conn_finish_failed: u64,
    /// Connections that are open now.
    pub concurrent_conns: u32,
    /// The counts of the connections closed.
    pub conn_stats: ConnStats,
}

impl WorkerContext {
    /// A context in which nothing has happened yet.
    pub fn new(max_sample: usize, session: Option<Vec<u8>>) -> (r: WorkerContext)
        ensures
            r.max_sample == max_sample,
            r.session == session,
            r.request_time_samples@.len() == 0,
            r.request_sent == 0 && r.request_done == 0 && r.request_success == 0,
            r.conn_total == 0 && r.conn_handshake_success == 0 && r.conn_finish == 0,
            r.conn_finish_success == 0 && r.conn_finish_failed == 0 && r.concurrent_conns == 0,
            r.conn_stats == (ConnStats {
                recv_count: 0,
                sent_count: 0,
                lost_count: 0,
                recv_bytes: 0,
                sent_bytes: 0,
                lost_bytes: 0,
            }),
    {
        WorkerContext {
            session,
            request_sent: 0,
            request_done: 0,
            request_success: 0,
            max_sample,
            request_time_samples: Vec::new(),
            conn_total: 0,
            conn_handshake_success: 0,
            conn_finish: 0,
            conn_finish_success: 0,
            conn_finish_failed: 0,
            concurrent_conns: 0,
            conn_stats: ConnStats::new(),
        }
    }
}

/// Whether the point in time `a` is later than `b`, where no time at all is
/// earlier than any.
pub open spec fn later(a: Option<u64>, b: Option<u64>) -> bool {
    match (a, b) {
        (Some(x), Some(y)) => x > y,
        (Some(_), None) => true,
        (None, _) => false,
    }
}

/// Context shared between the workers of a client: the sums of what the
/// workers counted.
pub struct ClientContext {
    /// The session of the worker that finished last.
    pub session: Option<Vec<u8>>,
    /// Requests sent.
    pub request_sent: u64,
    /// Requests that ended, well or not.
    pub request_done: u64,
    /// Requests that were answered in full.
    pub request_success: u64,
    /// The request times kept by the workers.
    pub request_time_samples: Vec<u128>,
    /// Connections begun.
    pub conn_total: u64,
    /// Connections whose handshake was completed.
    pub conn_handshake_success: u64,
    /// Connections closed.
    pub conn_finish: u64,
    /// Connections closed by the application, on either side.
    pub conn_finish_success: u64,
    /// Connections that ended in any other way.
    pub conn_finish_failed: u64,
    /// When the last worker ended.
    pub end_time: Option<u64>,
    /// The counts of the connections closed.
    pub conn_stats: ConnStats,
}

impl ClientContext {
    /// A context to which no worker has reported.
    pub fn new() -> (r: ClientContext)
        ensures
            r.session is None,
            r.request_time_samples@.len() == 0,
            r.request_sent == 0 && r.request_done == 0 && r.request_success == 0,
            r.conn_total == 0 && r.conn_handshake_success == 0 && r.conn_finish == 0,
            r.conn_finish_success == 0 && r.conn_finish_failed == 0,
            r.end_time is None,
            r.conn_stats == (ConnStats {
                recv_count: 0,
                sent_count: 0,
                lost_count: 0,
                recv_bytes: 0,
                sent_bytes: 0,
                lost_bytes: 0,
            }),
    {
        ClientContext {
            session: None,
            request_sent: 0,
            request_done: 0,
            request_success: 0,
            request_time_samples: Vec::new(),
            conn_total: 0,
            conn_handshake_success: 0,
            conn_finish: 0,
            conn_finish_success: 0,
            conn_finish_failed: 0,
            end_time: None,
            conn_stats: ConnStats::new(),
        }
    }

    /// Whether the counts of `worker` can be added to those of `self`.
    pub open spec fn fits(&self, worker: &WorkerContext) -> bool {
        &&& self.request_sent + worker.request_sent <= u64::MAX
        &&& self.request_done + worker.request_done <= u64::MAX
        &&& self.request_success + worker.request_success <= u64::MAX
        &&& self.conn_total + worker.conn_total <= u64::MAX
        &&& self.conn_handshake_success + worker.conn_handshake_success <= u64::MAX
        &&& self.conn_finish + worker.conn_finish <= u64::MAX
        &&& self.conn_finish_success + worker.conn_finish_success <= u64::MAX
        &&& self.conn_finish_failed + worker.conn_finish_failed <= u64::MAX
        &&& self.conn_stats.fits(&worker.conn_stats)
    }

    /// Whether the counts of `worker` can be added to those of `self`.
    pub fn can_add(&self, worker: &WorkerContext) -> (r: bool)
        ensures
            r == self.fits(worker),
    {
        self.request_sent <= u64::MAX - worker.request_sent && self.request_done <= u64::MAX
            - worker.request_done && self.request_success <= u64::MAX - worker.request_success
            && self.conn_total <= u64::MAX - worker.conn_total && self.conn_handshake_success
            <= u64::MAX - worker.conn_handshake_success && self.conn_finish <= u64::MAX
            - worker.conn_finish && self.conn_finish_success <= u64::MAX
            - worker.conn_finish_success && self.conn_finish_failed <= u64::MAX
            - worker.conn_finish_failed && self.conn_stats.can_add(&worker.conn_stats)
    }

    /// Takes over what a worker that has ended counted. The counts are added
    /// up, the request times of the worker are moved to the end of those
    /// kept here, its session replaces the one kept here, and the end of the
    /// client is the latest end of a worker.
    pub fn add_worker(&mut self, worker: &mut WorkerContext, end_time: Option<u64>)
        requires
            old(self).fits(old(worker)),
        ensures
            session_bytes(final(self).session) == session_bytes(old(worker).session),
            final(self).request_sent == old(self).request_sent + old(worker).request_sent,
            final(self).request_done == old(self).request_done + old(worker).request_done,
            final(self).request_success == old(self).request_success + old(
                worker,
            ).request_success,
            final(self).conn_total == old(self).conn_total + old(worker).conn_total,
            final(self).conn_handshake_success == old(self).conn_handshake_success + old(
                worker,
            ).conn_handshake_success,
            final(self).conn_finish == old(self).conn_finish + old(worker).conn_finish,
            final(self).conn_finish_success == old(self).conn_finish_success + old(
                worker,
            ).conn_finish_success,
            final(self).conn_finish_failed == old(self).conn_finish_failed + old(
                worker,
            ).conn_finish_failed,
            final(self).request_time_samples@ == old(self).request_time_samples@ + old(
                worker,
            ).request_time_samples@,
            final(self).end_time == if later(end_time, old(self).end_time) {
                end_time
            } else {
                old(self).end_time
            },
            final(self).conn_stats == old(self).conn_stats.plus(&old(worker).conn_stats),
            *final(worker) == (WorkerContext {
                request_time_samples: final(worker).request_time_samples,
                ..*old(worker)
            }),
            final(worker).request_time_samples@.len() == 0,
    {
        self.session = clone_session(&worker.session);
        self.request_sent += worker.request_sent;
        self.request_done += worker.request_done;
        self.request_success += worker.request_success;
        self.conn_total += worker.conn_total;
        self.conn_handshake_success += worker.conn_handshake_success;
        self.conn_finish += worker.conn_finish;
        self.conn_finish_success += worker.conn_finish_success;
        self.conn_finish_failed += worker.conn_finish_failed;
        self.request_time_samples.append(&mut worker.request_time_samples);
        let is_later = match end_time {
            Some(end) => match self.end_time {
                Some(known) => end > known,
                None => true,
            },
            None => false,
        };
        if is_later {
            self.end_time = end_time;
        }
        update_conn_stats(&mut self.conn_stats, &worker.conn_stats);
    }
}

/// The bytes of a session, if there is one.
pub open spec fn session_bytes(session: Option<Vec<u8>>) -> Option<Seq<u8>> {
    match session {
        Some(bytes) => Some(bytes@),
        None => None,
    }
}

/// A copy of a session.
fn clone_session(session: &Option<Vec<u8>>) -> (r: Option<Vec<u8>>)
    ensures
        session_bytes(r) == session_bytes(*session),
{
    match session {
        Some(bytes) => {
            let copy = bytes.clone();
            Some(copy)
        },
        None => None,
    }
}

} // verus!
