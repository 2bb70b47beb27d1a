//! The stream map as the scheduler sees it: whether stream data is waiting,
//! and the queue of byte ranges that are to be sent again on another path.

use vstd::prelude::*;

verus! {

/// A range of bytes of one stream.
#[derive(Debug, Clone, Copy, PartialEq, Eq, Structural)]
pub struct StreamRange {
    /// The stream.
    pub stream_id: u64,
    /// The offset of the first byte in the stream.
    pub offset: u64,
    /// The number of bytes.
    pub length: u64,
}

/// A request to send a range of stream bytes again on another path than the
/// one that carried it first.
#[derive(Debug, Clone, Copy, PartialEq, Eq, Structural)]
pub struct ReinjectionMarker {
    /// The bytes to send again.
    pub range: StreamRange,
    /// The path that carried the bytes first.
    pub origin: usize,
}

/// The markers for `ranges`, in their order, all with the same origin.
pub open spec fn markers_of(ranges: Seq<StreamRange>, origin: usize) -> Seq<ReinjectionMarker> {
    ranges.map_values(|range: StreamRange| (ReinjectionMarker { range, origin }))
}

/// The queue after `markers` were offered to it one by one: those for which
/// there was room are appended in their order, the others are dropped.
pub open spec fn enqueue_all(
    queue: Seq<ReinjectionMarker>,
    limit: usize,
    markers: Seq<ReinjectionMarker>,
) -> Seq<ReinjectionMarker> {
    if queue.len() >= limit {
        queue
    } else if markers.len() <= limit - queue.len() {
        queue + markers
    } else {
        queue + markers.take(limit - queue.len())
    }
}

/// Offering markers to a queue that holds no more than it takes leaves it so,
/// and what was queued before stays at its front.
pub proof fn lemma_enqueue_all_bounded(
    queue: Seq<ReinjectionMarker>,
    limit: usize,
    markers: Seq<ReinjectionMarker>,
)
    requires
        queue.len() <= limit,
    ensures
        enqueue_all(queue, limit, markers).len() <= limit,
        queue.is_prefix_of(enqueue_all(queue, limit, markers)),
{
}

/// The streams of a connection. The reinjection queue is written by the
/// scheduler and emptied by the packer.
pub struct StreamMap {
    sendable: bool,
    reinjection: Vec<ReinjectionMarker>,
    reinjection_limit: usize,
}

impl StreamMap {
    /// Whether a stream has new data to send.
    pub closed spec fn has_data(&self) -> bool {
        self.sendable
    }

    /// The reinjection queue, the oldest marker first.
    pub closed spec fn queue(&self) -> Seq<ReinjectionMarker> {
        self.reinjection@
    }

    /// The number of markers that the queue takes.
    pub closed spec fn limit(&self) -> usize {
        self.reinjection_limit
    }

    /// The queue holds no more markers than it takes.
    pub open spec fn wf(&self) -> bool {
        self.queue().len() <= self.limit()
    }

    /// Streams without data and with an empty reinjection queue that takes
    /// `reinjection_limit` markers.
    pub fn new(reinjection_limit: usize) -> (r: StreamMap)
        ensures
            r.wf(),
            !r.has_data(),
            r.queue() == Seq::<ReinjectionMarker>::empty(),
            r.limit() == reinjection_limit,
    {
        StreamMap { sendable: false, reinjection: Vec::new(), reinjection_limit }
    }

    /// Records whether a stream has new data to send.
    pub fn set_sendable(&mut self, sendable: bool)
        ensures
            final(self).has_data() == sendable,
            final(self).queue() == old(self).queue(),
            final(self).limit() == old(self).limit(),
    {
        self.sendable = sendable;
    }

    /// Whether there is stream data to pack: new data, or a range that is to
    /// be sent again.
    pub fn has_sendable_data(&self) -> (r: bool)
        ensures
            r == (self.has_data() || self.queue().len() > 0),
    {
        self.sendable || self.reinjection.len() > 0
    }

    /// The number of markers in the reinjection queue.
    pub fn reinjection_len(&self) -> (r: usize)
        ensures
            r == self.queue().len(),
    {
        self.reinjection.len()
    }

    /// Asks for `range`, first carried by the path `origin`, to be sent
    /// again. The marker is appended if the queue has room for it, and refused
    /// otherwise. Returns whether it was accepted.
    pub fn enqueue_reinjection(&mut self, range: StreamRange, origin: usize) -> (accepted: bool)
        ensures
            accepted == (old(self).queue().len() < old(self).limit()),
            accepted ==> final(self).queue() == old(self).queue().push(
                (ReinjectionMarker { range, origin }),
            ),
            !accepted ==> final(self).queue() == old(self).queue(),
            final(self).has_data() == old(self).has_data(),
            final(self).limit() == old(self).limit(),
            old(self).wf() ==> final(self).wf(),
    {
        if self.reinjection.len() < self.reinjection_limit {
            self.reinjection.push(ReinjectionMarker { range, origin });
            true
        } else {
            false
        }
    }

    /// Hands the queued markers to the packer, the oldest first, and leaves
    /// the queue empty.
    pub fn drain_reinjection(&mut self) -> (markers: Vec<ReinjectionMarker>)
        ensures
            markers@ == old(self).queue(),
            final(self).queue() == Seq::<ReinjectionMarker>::empty(),
            final(self).has_data() == old(self).has_data(),
            final(self).limit() == old(self).limit(),
    {
        let mut markers: Vec<ReinjectionMarker> = Vec::new();
        core::mem::swap(&mut markers, &mut self.reinjection);
        markers
    }
}

} // verus!
