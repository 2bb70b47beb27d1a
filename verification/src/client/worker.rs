//! The rules of a worker: when it opens connections, what it counts when one
//! closes, and when it stops.

use vstd::prelude::*;

use crate::client::context::update_conn_stats;
use crate::client::context::WorkerContext;
use crate::client::context::ConnStats;

verus! {

/// A limit on requests that is raised to the number of URLs, so that every
/// URL is asked for at least once. Zero means no limit and stays zero.
pub open spec fn raised_limit(limit: u64, urls: usize) -> u64 {
    if limit != 0 && limit < urls {
        urls as u64
    } else {
        limit
    }
}

/// Raises a limit on requests to the number of URLs, unless it is zero.
pub fn raise_limit(limit: u64, urls: usize) -> (r: u64)
    ensures
        r == raised_limit(limit, urls),
{
    let urls = urls as u64;
    if limit != 0 && limit < urls {
        urls
    } else {
        limit
    }
}

/// A worker is to stop when it has run for more than `duration` seconds, or
/// when `max_requests` requests are done. A limit of zero does not apply.
pub open spec fn exit_due(
    duration: u64,
    elapsed_secs: u64,
    max_requests: u64,
    request_done: u64,
) -> bool {
    (duration > 0 && elapsed_secs > duration) || (max_requests > 0 && request_done
        >= max_requests)
}

/// How a connection ended.
#[derive(Debug, Clone, Copy, PartialEq, Eq, Structural)]
pub enum ConnEnd {
    /// This side closed it with an application error code.
    ClosedByLocalApp,
    /// The peer closed it with an application error code.
    ClosedByPeerApp,
    /// Anything else: a transport error, or a timeout.
    Failed,
}

impl ConnEnd {
    /// How a connection ended, given whether this side and the peer gave an
    /// application error code. What this side did comes first.
    pub fn of(local_app_error: bool, peer_app_error: bool) -> (r: ConnEnd)
        ensures
            r == if local_app_error {
                ConnEnd::ClosedByLocalApp
            } else if peer_app_error {
                ConnEnd::ClosedByPeerApp
            } else {
                ConnEnd::Failed
            },
    {
        if local_app_error {
            ConnEnd::ClosedByLocalApp
        } else if peer_app_error {
            ConnEnd::ClosedByPeerApp
        } else {
            ConnEnd::Failed
        }
    }
}

impl WorkerContext {
    /// Whether the worker is to stop.
    pub fn should_exit(&self, duration: u64, elapsed_secs: u64, max_requests_per_thread: u64) -> (r:
        bool)
        ensures
            r == exit_due(duration, elapsed_secs, max_requests_per_thread, self.request_done),
    {
        (duration > 0 && elapsed_secs > duration) || (max_requests_per_thread > 0
            && self.request_done >= max_requests_per_thread)
    }

    /// Whether another connection is to be opened.
    pub fn wants_conn(&self, max_concurrent_conns: u32) -> (r: bool)
        ensures
            r == (self.concurrent_conns < max_concurrent_conns),
    {
        self.concurrent_conns < max_concurrent_conns
    }

    /// Counts a connection that was begun.
    pub fn conn_created(&mut self)
        requires
            old(self).concurrent_conns < u32::MAX,
            old(self).conn_total < u64::MAX,
        ensures
            *final(self) == (WorkerContext {
                concurrent_conns: (old(self).concurrent_conns + 1) as u32,
                conn_total: (old(self).conn_total + 1) as u64,
                ..*old(self)
            }),
    {
        self.concurrent_conns += 1;
        self.conn_total += 1;
    }

    /// Counts a handshake that was completed.
    pub fn conn_established(&mut self)
        requires
            old(self).conn_handshake_success < u64::MAX,
        ensures
            *final(self) == (WorkerContext {
                conn_handshake_success: (old(self).conn_handshake_success + 1) as u64,
                ..*old(self)
            }),
    {
        self.conn_handshake_success += 1;
    }

    /// Whether a connection that ended as `end` can be counted.
    pub open spec fn can_close(&self, stats: &ConnStats, end: ConnEnd) -> bool {
        &&& self.conn_stats.fits(stats)
        &&& self.conn_finish < u64::MAX
        &&& end is Failed ==> self.conn_finish_failed < u64::MAX
        &&& !(end is Failed) ==> self.conn_finish_success < u64::MAX
        &&& !(end is ClosedByLocalApp) ==> self.concurrent_conns > 0
    }

    /// Whether a connection that ended as `end` can be counted.
    pub fn closable(&self, stats: &ConnStats, end: ConnEnd) -> (r: bool)
        ensures
            r == self.can_close(stats, end),
    {
        let counters = match end {
            ConnEnd::ClosedByLocalApp => self.conn_finish_success < u64::MAX,
            ConnEnd::ClosedByPeerApp => self.conn_finish_success < u64::MAX
                && self.concurrent_conns > 0,
            ConnEnd::Failed => self.conn_finish_failed < u64::MAX && self.concurrent_conns > 0,
        };
        self.conn_stats.can_add(stats) && self.conn_finish < u64::MAX && counters
    }

    /// Counts a connection that was closed. Its packet and byte counts are
    /// added to the total, and its session is kept if one is given. A
    /// connection closed by the application counts as a success, any other as
    /// a failure. A connection that this side closed has been taken off the
    /// number of open connections when it did so; any other is taken off now.
    pub fn conn_closed(&mut self, stats: &ConnStats, session: Option<Vec<u8>>, end: ConnEnd)
        requires
            old(self).can_close(stats, end),
        ensures
            *final(self) == (WorkerContext {
                conn_stats: old(self).conn_stats.plus(stats),
                session: if session is Some {
                    session
                } else {
                    old(self).session
                },
                conn_finish: (old(self).conn_finish + 1) as u64,
                conn_finish_success: if end is Failed {
                    old(self).conn_finish_success
                } else {
                    (old(self).conn_finish_success + 1) as u64
                },
                conn_finish_failed: if end is Failed {
                    (old(self).conn_finish_failed + 1) as u64
                } else {
                    old(self).conn_finish_failed
                },
                concurrent_conns: if end is ClosedByLocalApp {
                    old(self).concurrent_conns
                } else {
                    (old(self).concurrent_conns - 1) as u32
                },
                ..*old(self)
            }),
    {
        update_conn_stats(&mut self.conn_stats, stats);
        if session.is_some() {
            self.session = session;
        }
        self.conn_finish += 1;
        match end {
            ConnEnd::ClosedByLocalApp => {
                self.conn_finish_success += 1;
            },
            ConnEnd::ClosedByPeerApp => {
                self.concurrent_conns -= 1;
                self.conn_finish_success += 1;
            },
            ConnEnd::Failed => {
                self.conn_finish_failed += 1;
                self.concurrent_conns -= 1;
            },
        }
    }
}

} // verus!
