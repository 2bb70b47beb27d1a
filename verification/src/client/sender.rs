//! The requests of one connection: which URL is asked for next, how many
//! requests are under way, and when the connection has done its share.

use vstd::prelude::*;

use crate::client::context::WorkerContext;

verus! {

/// The distance between the ids of two streams that the client opens in
/// both directions.
pub const STREAM_ID_STEP: u64 = 4;

/// Used for sending http/0.9 or h3 requests. One connection has only one
/// request sender.
#[derive(Debug, Clone, Copy, PartialEq, Eq, Structural)]
pub struct RequestSender {
    /// The number of request URLs.
    pub url_count: usize,
    /// Current index of URLs.
    pub current_url_idx: usize,
    /// Maximum concurrent requests.
    pub max_concurrent_requests: u64,
    /// Concurrent requests of this sender.
    pub concurrent_requests: u64,
    /// Maximum requests to be sent per connection; zero for no limit.
    pub max_requests_per_conn: u64,
    /// Requests already sent of this sender.
    pub request_sent: u64,
    /// Requests already done of this sender.
    pub request_done: u64,
    /// Next available stream id, used in http/0.9 mode.
    pub next_stream_id: u64,
}

impl RequestSender {
    /// A sender that has sent nothing and starts with the first URL.
    pub fn new(url_count: usize, max_concurrent_requests: u64, max_requests_per_conn: u64) -> (r:
        RequestSender)
        ensures
            r == (RequestSender {
                url_count,
                current_url_idx: 0,
                max_concurrent_requests,
                concurrent_requests: 0,
                max_requests_per_conn,
                request_sent: 0,
                request_done: 0,
                next_stream_id: 0,
            }),
    {
        RequestSender {
            url_count,
            current_url_idx: 0,
            max_concurrent_requests,
            concurrent_requests: 0,
            max_requests_per_conn,
            request_sent: 0,
            request_done: 0,
            next_stream_id: 0,
        }
    }

    /// Another request is sent as long as fewer than the maximum are under
    /// way and the connection has not sent its share.
    pub open spec fn may_send(&self) -> bool {
        self.concurrent_requests < self.max_concurrent_requests && (self.max_requests_per_conn
            == 0 || self.request_sent < self.max_requests_per_conn)
    }

    /// Whether another request is to be sent.
    pub fn can_send(&self) -> (r: bool)
        ensures
            r == self.may_send(),
    {
        self.concurrent_requests < self.max_concurrent_requests && (self.max_requests_per_conn
            == 0 || self.request_sent < self.max_requests_per_conn)
    }

    /// The URL index that follows `idx`: the URLs are gone through in turn.
    pub open spec fn next_url_idx(idx: usize, url_count: usize) -> usize {
        if idx + 1 == url_count {
            0
        } else {
            (idx + 1) as usize
        }
    }

    /// Whether a request that was sent can be counted.
    pub open spec fn can_count_sent(&self, worker_ctx: &WorkerContext) -> bool {
        &&& self.current_url_idx < usize::MAX
        &&& self.concurrent_requests < u64::MAX
        &&& self.request_sent < u64::MAX
        &&& worker_ctx.request_sent < u64::MAX
    }

    /// Whether a request that was sent can be counted.
    pub fn sent_countable(&self, worker_ctx: &WorkerContext) -> (r: bool)
        ensures
            r == self.can_count_sent(worker_ctx),
    {
        self.current_url_idx < usize::MAX && self.concurrent_requests < u64::MAX
            && self.request_sent < u64::MAX && worker_ctx.request_sent < u64::MAX
    }

    /// Counts a request that was sent, and moves on to the next URL.
    pub fn on_request_sent(&mut self, worker_ctx: &mut WorkerContext)
        requires
            old(self).can_count_sent(old(worker_ctx)),
        ensures
            *final(self) == (RequestSender {
                current_url_idx: Self::next_url_idx(
                    old(self).current_url_idx,
                    old(self).url_count,
                ),
                concurrent_requests: (old(self).concurrent_requests + 1) as u64,
                request_sent: (old(self).request_sent + 1) as u64,
                ..*old(self)
            }),
            *final(worker_ctx) == (WorkerContext {
                request_sent: (old(worker_ctx).request_sent + 1) as u64,
                ..*old(worker_ctx)
            }),
    {
        self.current_url_idx += 1;
        if self.current_url_idx == self.url_count {
            self.current_url_idx = 0;
        }
        self.concurrent_requests += 1;
        self.request_sent += 1;
        worker_ctx.request_sent += 1;
    }

    /// Takes the stream for the next http/0.9 request: returns its id and
    /// moves on to the next stream that the client opens in both directions.
    pub fn take_stream_id(&mut self) -> (stream_id: u64)
        requires
            old(self).next_stream_id <= u64::MAX - STREAM_ID_STEP,
        ensures
            stream_id == old(self).next_stream_id,
            *final(self) == (RequestSender {
                next_stream_id: (old(self).next_stream_id + STREAM_ID_STEP) as u64,
                ..*old(self)
            }),
    {
        let stream_id = self.next_stream_id;
        self.next_stream_id += STREAM_ID_STEP;
        stream_id
    }

    /// Whether an http/0.9 response on `stream_id` is complete: the stream is
    /// one that the client opened in both directions, and it has ended.
    pub fn http09_response_complete(stream_id: u64, fin: bool) -> (r: bool)
        ensures
            r == (stream_id % STREAM_ID_STEP == 0 && fin),
    {
        stream_id % STREAM_ID_STEP == 0 && fin
    }

    /// Whether the request that ends next is the last of the connection.
    pub open spec fn last_request(&self) -> bool {
        self.request_done + 1 == self.max_requests_per_conn
    }

    /// Whether a request that was answered can be counted.
    pub open spec fn can_count_done(&self, worker_ctx: &WorkerContext) -> bool {
        &&& self.request_done < u64::MAX
        &&& self.concurrent_requests > 0
        &&& worker_ctx.request_success < u64::MAX
        &&& worker_ctx.request_done < u64::MAX
        &&& self.last_request() ==> worker_ctx.concurrent_conns > 0
    }

    /// Whether a request that was reset can be counted.
    pub open spec fn can_count_reset(&self, worker_ctx: &WorkerContext) -> bool {
        &&& self.request_done < u64::MAX
        &&& self.concurrent_requests > 0
        &&& worker_ctx.request_done < u64::MAX
        &&& worker_ctx.concurrent_conns > 0
    }

    /// Whether a request that was reset can be counted.
    pub fn reset_countable(&self, worker_ctx: &WorkerContext) -> (r: bool)
        ensures
            r == self.can_count_reset(worker_ctx),
    {
        self.request_done < u64::MAX && self.concurrent_requests > 0 && worker_ctx.request_done
            < u64::MAX && worker_ctx.concurrent_conns > 0
    }

    /// Whether a request that was answered can be counted.
    pub fn done_countable(&self, worker_ctx: &WorkerContext) -> (r: bool)
        ensures
            r == self.can_count_done(worker_ctx),
    {
        self.request_done < u64::MAX && self.concurrent_requests > 0 && worker_ctx.request_success
            < u64::MAX && worker_ctx.request_done < u64::MAX && (self.request_done + 1
            != self.max_requests_per_conn || worker_ctx.concurrent_conns > 0)
    }

    /// Counts a request that was answered in full. Returns whether the
    /// connection has done its share and is to be closed; if so, it is taken
    /// off the number of open connections.
    pub fn on_request_finished(&mut self, worker_ctx: &mut WorkerContext) -> (close: bool)
        requires
            old(self).can_count_done(old(worker_ctx)),
        ensures
            close == old(self).last_request(),
            *final(self) == (RequestSender {
                request_done: (old(self).request_done + 1) as u64,
                concurrent_requests: (old(self).concurrent_requests - 1) as u64,
                ..*old(self)
            }),
            *final(worker_ctx) == (WorkerContext {
                request_success: (old(worker_ctx).request_success + 1) as u64,
                request_done: (old(worker_ctx).request_done + 1) as u64,
                concurrent_conns: if close {
                    (old(worker_ctx).concurrent_conns - 1) as u32
                } else {
                    old(worker_ctx).concurrent_conns
                },
                ..*old(worker_ctx)
            }),
    {
        self.request_done += 1;
        self.concurrent_requests -= 1;
        worker_ctx.request_success += 1;
        worker_ctx.request_done += 1;
        if self.request_done == self.max_requests_per_conn {
            worker_ctx.concurrent_conns -= 1;
            true
        } else {
            false
        }
    }

    /// Counts a request that the peer reset. The connection is to be closed
    /// and is taken off the number of open connections.
    pub fn on_request_reset(&mut self, worker_ctx: &mut WorkerContext)
        requires
            old(self).can_count_reset(old(worker_ctx)),
        ensures
            *final(self) == (RequestSender {
                request_done: (old(self).request_done + 1) as u64,
                concurrent_requests: (old(self).concurrent_requests - 1) as u64,
                ..*old(self)
            }),
            *final(worker_ctx) == (WorkerContext {
                request_done: (old(worker_ctx).request_done + 1) as u64,
                concurrent_conns: (old(worker_ctx).concurrent_conns - 1) as u32,
                ..*old(worker_ctx)
            }),
    {
        self.request_done += 1;
        self.concurrent_requests -= 1;
        worker_ctx.request_done += 1;
        worker_ctx.concurrent_conns -= 1;
    }
}

} // verus!
