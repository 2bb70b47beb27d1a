//! Redundant scheduling: the same stream data is sent on every path that can
//! be selected.
//!
//! The paths are handed out in bursts. The first call of a burst ranks the
//! paths that can be selected and returns the best; each further call returns
//! the next of them that can still be selected, and `Done` ends the burst
//! when none is left. While paths of the burst are still to come, the stream
//! ranges of every packet sent are queued to be sent again.

use std::time::Instant;
use vstd::prelude::*;

use crate::error::Error;
use crate::path::Path;
use crate::path::PathMap;
use crate::rank::is_best;
use crate::rank::is_candidate;
use crate::rank::is_ranking;
use crate::rank::lemma_ranking_empty;
use crate::rank::lemma_ranking_head_is_best;
use crate::rank::lemma_ranking_no_duplicates;
use crate::rank::precedes;
use crate::rank::rank_eligible;
use crate::scheduler::MultipathConfig;
use crate::scheduler::MultipathScheduler;
use crate::space::PacketNumSpaceMap;
use crate::space::SentPacket;
use crate::stream::enqueue_all;
use crate::stream::lemma_enqueue_all_bounded;
use crate::stream::markers_of;
use crate::stream::ReinjectionMarker;
use crate::stream::StreamMap;
use crate::stream::StreamRange;

verus! {

/// The number of sent packets that the scheduler remembers.
pub const SENT_LOG_CAPACITY: usize = 64;

/// A packet that was sent, and the path that carried it.
#[derive(Debug, Clone, Copy, PartialEq, Eq, Structural)]
pub struct SentRecord {
    /// The packet number.
    pub pkt_num: u64,
    /// The path.
    pub path_id: usize,
}

/// What a redundant scheduler remembers between calls.
pub struct RedundantState {
    /// The first path of the latest burst.
    pub last_selected: Option<usize>,
    /// Whether a burst has begun and not ended.
    pub in_burst: bool,
    /// The paths of the burst that are still to be handed out, the most
    /// preferred first.
    pub pending: Seq<usize>,
    /// The path that carried the data of the burst first, as long as copies
    /// of it are still to be sent.
    pub origin: Option<usize>,
    /// The number of copies of the data of the burst that are still to be
    /// sent.
    pub fanout: usize,
    /// The packets sent last, the oldest first.
    pub log: Seq<SentRecord>,
}

impl RedundantState {
    /// The state of a scheduler that has done nothing yet: outside a burst,
    /// with nothing selected and nothing sent.
    pub open spec fn initial() -> RedundantState {
        RedundantState {
            last_selected: None,
            in_burst: false,
            pending: Seq::empty(),
            origin: None,
            fanout: 0,
            log: Seq::empty(),
        }
    }

    /// Outside a burst nothing is pending and no copy is due; and the log is
    /// short.
    pub open spec fn wf(self) -> bool {
        &&& self.log.len() <= SENT_LOG_CAPACITY
        &&& !self.in_burst ==> self.pending.len() == 0 && self.origin is None && self.fanout == 0
    }
}

/// `fanout` less `n`, and zero if that is negative.
pub open spec fn less(fanout: usize, n: int) -> usize {
    if fanout >= n {
        (fanout - n) as usize
    } else {
        0
    }
}

/// What is left of `pending` from its first path that can be selected on.
pub open spec fn skip_ineligible(paths: Seq<Path>, pending: Seq<usize>) -> Seq<usize>
    decreases pending.len(),
{
    if pending.len() == 0 || is_candidate(paths, pending[0] as int) {
        pending
    } else {
        skip_ineligible(paths, pending.drop_first())
    }
}

/// Whether a selection that finds the scheduler in state `pre` may return `r`
/// and leave the scheduler in state `post`.
///
/// Outside a burst: if no path can be selected, the result is
/// `NoPathAvailable` and nothing changes. Otherwise a burst begins: the
/// paths that can be selected are ranked, the first of them is returned and
/// remembered as the origin of the burst, the others are pending, and one
/// copy of the data is due for each of them.
///
/// Within a burst: the pending paths that can no longer be selected are
/// passed over, and no copy is due for them any more. The first that can be
/// selected is returned. If there is none, the burst ends with `Done`.
pub open spec fn select_step(
    pre: RedundantState,
    paths: Seq<Path>,
    post: RedundantState,
    r: Result<usize, Error>,
) -> bool {
    if !pre.in_burst {
        match r {
            Ok(p) => {
                &&& is_ranking(paths, pre.last_selected, seq![p] + post.pending)
                &&& post == (RedundantState {
                    last_selected: Some(p),
                    in_burst: true,
                    pending: post.pending,
                    origin: Some(p),
                    fanout: (post.pending.len() + 1) as usize,
                    log: pre.log,
                })
            },
            Err(e) => {
                &&& e is NoPathAvailable
                &&& forall|j: int| !is_candidate(paths, j)
                &&& post == pre
            },
        }
    } else {
        let rest = skip_ineligible(paths, pre.pending);
        if rest.len() == 0 {
            &&& r == Err::<usize, Error>(Error::Done)
            &&& post == (RedundantState {
                in_burst: false,
                pending: Seq::empty(),
                origin: None,
                fanout: 0,
                ..pre
            })
        } else {
            &&& r == Ok::<usize, Error>(rest[0])
            &&& post == (RedundantState {
                pending: rest.drop_first(),
                fanout: less(pre.fanout, pre.pending.len() - rest.len()),
                ..pre
            })
        }
    }
}

/// The log after `record` was entered: the oldest record makes room if the
/// log is full.
pub open spec fn push_bounded(log: Seq<SentRecord>, record: SentRecord) -> Seq<SentRecord> {
    if log.len() < SENT_LOG_CAPACITY {
        log.push(record)
    } else {
        log.drop_first().push(record)
    }
}

/// The state after the packet `pkt_num` was sent on `path_id`: the packet is
/// logged and one copy fewer is due. When no copy is due any more, the data
/// of the burst is done with and the origin is forgotten.
pub open spec fn sent_step(pre: RedundantState, pkt_num: u64, path_id: usize) -> RedundantState {
    let fanout = less(pre.fanout, 1);
    RedundantState {
        fanout,
        origin: if fanout == 0 {
            None
        } else {
            pre.origin
        },
        log: push_bounded(pre.log, SentRecord { pkt_num, path_id }),
        ..pre
    }
}

/// The markers that are offered to the reinjection queue when a packet with
/// `ranges` was sent on `path_id`: one for each range, tagged with the origin
/// of the burst, as long as a copy is still due after this packet; none
/// otherwise.
pub open spec fn sent_markers(
    pre: RedundantState,
    ranges: Seq<StreamRange>,
    path_id: usize,
) -> Seq<ReinjectionMarker> {
    if less(pre.fanout, 1) > 0 {
        markers_of(
            ranges,
            match pre.origin {
                Some(origin) => origin,
                None => path_id,
            },
        )
    } else {
        Seq::empty()
    }
}

/// RedundantScheduler sends all packets redundantly on all available paths.
pub struct RedundantScheduler {
    last_selected: Option<usize>,
    in_burst: bool,
    pending: Vec<usize>,
    origin: Option<usize>,
    fanout: usize,
    log: Vec<SentRecord>,
}

impl View for RedundantScheduler {
    type V = RedundantState;

    closed spec fn view(&self) -> RedundantState {
        RedundantState {
            last_selected: self.last_selected,
            in_burst: self.in_burst,
            pending: self.pending@,
            origin: self.origin,
            fanout: self.fanout,
            log: self.log@,
        }
    }
}

impl RedundantScheduler {
    /// A scheduler outside a burst that has sent nothing.
    pub fn new(conf: &MultipathConfig) -> (r: RedundantScheduler)
        ensures
            r@ == RedundantState::initial(),
            r@.wf(),
    {
        RedundantScheduler {
            last_selected: None,
            in_burst: false,
            pending: Vec::new(),
            origin: None,
            fanout: 0,
            log: Vec::new(),
        }
    }

    /// Whether a burst has begun and not ended.
    pub fn in_burst(&self) -> (r: bool)
        ensures
            r == self@.in_burst,
    {
        self.in_burst
    }

    /// The path that carried the data of the burst first, as long as copies
    /// of it are still to be sent.
    pub fn origin(&self) -> (r: Option<usize>)
        ensures
            r == self@.origin,
    {
        self.origin
    }

    /// The number of copies of the data of the burst that are still to be
    /// sent.
    pub fn fanout(&self) -> (r: usize)
        ensures
            r == self@.fanout,
    {
        self.fanout
    }

    /// The number of paths of the burst that are still to be handed out.
    pub fn pending_len(&self) -> (r: usize)
        ensures
            r == self@.pending.len(),
    {
        self.pending.len()
    }

    /// Whether the packet `pkt_num` is among the packets sent last, on the
    /// path `path_id`.
    pub fn recently_sent(&self, pkt_num: u64, path_id: usize) -> (r: bool)
        ensures
            r == self@.log.contains(SentRecord { pkt_num, path_id }),
    {
        let n = self.log.len();
        let mut i: usize = 0;
        while i < n
            invariant
                i <= n,
                n == self.log@.len(),
                forall|k: int| 0 <= k < i ==> self.log@[k] != (SentRecord { pkt_num, path_id }),
            decreases n - i,
        {
            let record = self.log[i];
            if record.pkt_num == pkt_num && record.path_id == path_id {
                return true;
            }
            i += 1;
        }
        false
    }

    /// Begins a burst, if a path can be selected.
    fn begin_burst(&mut self, paths: &PathMap) -> (r: Result<usize, Error>)
        requires
            !old(self)@.in_burst,
        ensures
            select_step(old(self)@, paths@, final(self)@, r),
            old(self)@.wf() ==> final(self)@.wf(),
    {
        let mut ranked = rank_eligible(paths, self.last_selected);
        let fanout = ranked.len();
        if fanout == 0 {
            proof {
                lemma_ranking_empty(paths@, self.last_selected, ranked@);
            }
            return Err(Error::NoPathAvailable);
        }
        let ghost ranking = ranked@;
        let first = ranked.remove(0);
        assert(seq![first] + ranked@ =~= ranking);
        self.last_selected = Some(first);
        self.in_burst = true;
        self.pending = ranked;
        self.origin = Some(first);
        self.fanout = fanout;
        Ok(first)
    }

    /// Hands out the next path of the burst, or ends the burst.
    fn continue_burst(&mut self, paths: &PathMap) -> (r: Result<usize, Error>)
        requires
            old(self)@.in_burst,
        ensures
            select_step(old(self)@, paths@, final(self)@, r),
            old(self)@.wf() ==> final(self)@.wf(),
    {
        while self.pending.len() > 0
            invariant
                old(self)@.in_burst,
                self.pending@.len() <= old(self)@.pending.len(),
                skip_ineligible(paths@, self.pending@) == skip_ineligible(
                    paths@,
                    old(self)@.pending,
                ),
                self@ == (RedundantState {
                    pending: self.pending@,
                    fanout: less(
                        old(self)@.fanout,
                        old(self)@.pending.len() - self.pending@.len(),
                    ),
                    ..old(self)@
                }),
            decreases self.pending@.len(),
        {
            let next = self.pending.remove(0);
            let eligible = match paths.get(next) {
                Some(path) => path.is_eligible(),
                None => false,
            };
            if eligible {
                return Ok(next);
            }
            // No copy will be sent on a path that is passed over.
            if self.fanout > 0 {
                self.fanout -= 1;
            }
        }
        assert(self.pending@ =~= Seq::<usize>::empty());
        self.in_burst = false;
        self.origin = None;
        self.fanout = 0;
        Err(Error::Done)
    }

    /// Enters the packet in the log of packets sent last.
    fn log_sent(&mut self, pkt_num: u64, path_id: usize)
        ensures
            final(self)@ == (RedundantState {
                log: push_bounded(old(self)@.log, SentRecord { pkt_num, path_id }),
                ..old(self)@
            }),
            old(self)@.log.len() <= SENT_LOG_CAPACITY ==> final(self)@.log.len()
                <= SENT_LOG_CAPACITY,
    {
        if self.log.len() >= SENT_LOG_CAPACITY {
            self.log.remove(0);
        }
        self.log.push(SentRecord { pkt_num, path_id });
    }
}

/// Offers a marker for each of `ranges` to the reinjection queue. A marker
/// that is refused is dropped.
fn enqueue_markers(streams: &mut StreamMap, ranges: &Vec<StreamRange>, origin: usize)
    ensures
        final(streams).queue() == enqueue_all(
            old(streams).queue(),
            old(streams).limit(),
            markers_of(ranges@, origin),
        ),
        final(streams).has_data() == old(streams).has_data(),
        final(streams).limit() == old(streams).limit(),
{
    let ghost markers = markers_of(ranges@, origin);
    let ghost queue = streams.queue();
    let ghost limit = streams.limit();
    let n = ranges.len();
    let mut i: usize = 0;
    while i < n
        invariant
            i <= n,
            n == ranges@.len(),
            markers == markers_of(ranges@, origin),
            streams.queue() == enqueue_all(queue, limit, markers.take(i as int)),
            streams.has_data() == old(streams).has_data(),
            streams.limit() == limit,
        decreases n - i,
    {
        let accepted = streams.enqueue_reinjection(ranges[i], origin);
        i += 1;
    }
}

impl MultipathScheduler for RedundantScheduler {
    /// Begins a burst, hands out the next path of the burst that has begun,
    /// or ends it, as `select_step` says.
    fn on_select(
        &mut self,
        paths: &mut PathMap,
        spaces: &mut PacketNumSpaceMap,
        streams: &mut StreamMap,
    ) -> (r: Result<usize, Error>)
        ensures
            select_step(old(self)@, old(paths)@, final(self)@, r),
            old(self)@.wf() ==> final(self)@.wf(),
            *final(streams) == *old(streams),
    {
        let r = if self.in_burst {
            self.continue_burst(paths)
        } else {
            self.begin_burst(paths)
        };
        proof {
            lemma_select_step_result(old(self)@, paths@, self@, r);
        }
        r
    }

    /// Logs the packet and counts it as one copy of the data of the burst.
    /// As long as a copy is still due after it, the stream ranges of the
    /// packet are offered to the reinjection queue, tagged with the origin of
    /// the burst.
    fn on_sent(
        &mut self,
        packet: &SentPacket,
        now: Instant,
        path_id: usize,
        paths: &mut PathMap,
        spaces: &mut PacketNumSpaceMap,
        streams: &mut StreamMap,
    )
        ensures
            final(self)@ == sent_step(old(self)@, packet.pkt_num, path_id),
            final(streams).queue() == enqueue_all(
                old(streams).queue(),
                old(streams).limit(),
                sent_markers(old(self)@, packet.ranges@, path_id),
            ),
            old(self)@.wf() ==> final(self)@.wf(),
    {
        self.log_sent(packet.pkt_num, path_id);
        if self.fanout > 0 {
            self.fanout -= 1;
        }
        if self.fanout > 0 {
            let origin = match self.origin {
                Some(origin) => origin,
                None => path_id,
            };
            enqueue_markers(streams, &packet.ranges, origin);
        } else {
            self.origin = None;
        }
        proof {
            if old(streams).wf() {
                lemma_enqueue_all_bounded(
                    old(streams).queue(),
                    old(streams).limit(),
                    sent_markers(old(self)@, packet.ranges@, path_id),
                );
            }
        }
    }
}

/// What is left after the paths that cannot be selected were passed over is
/// an end piece of what was pending, and begins, if it is not empty, with a
/// path that can be selected.
pub proof fn lemma_skip_ineligible(paths: Seq<Path>, pending: Seq<usize>)
    ensures
        skip_ineligible(paths, pending).len() <= pending.len(),
        skip_ineligible(paths, pending) == pending.skip(
            pending.len() - skip_ineligible(paths, pending).len(),
        ),
        skip_ineligible(paths, pending).len() > 0 ==> is_candidate(
            paths,
            skip_ineligible(paths, pending)[0] as int,
        ),
        forall|k: int|
            0 <= k < pending.len() - skip_ineligible(paths, pending).len() ==> !is_candidate(
                paths,
                #[trigger] pending[k] as int,
            ),
    decreases pending.len(),
{
    if pending.len() > 0 && !is_candidate(paths, pending[0] as int) {
        let tail = pending.drop_first();
        lemma_skip_ineligible(paths, tail);
        let rest = skip_ineligible(paths, tail);
        assert forall|k: int| 0 <= k < pending.len() - rest.len() implies !is_candidate(
            paths,
            #[trigger] pending[k] as int,
        ) by {
            if k > 0 {
                assert(pending[k] == tail[k - 1]);
            }
        }
    }
}

/// Whatever state a selection starts from, a path that it returns can be
/// selected, and `NoPathAvailable` is returned only if no path can be.
pub proof fn lemma_select_step_result(
    pre: RedundantState,
    paths: Seq<Path>,
    post: RedundantState,
    r: Result<usize, Error>,
)
    requires
        select_step(pre, paths, post, r),
    ensures
        r matches Ok(p) ==> is_candidate(paths, p as int),
        r matches Err(e) ==> e is NoPathAvailable || e is Done,
        r matches Err(Error::NoPathAvailable) ==> forall|j: int| !is_candidate(paths, j),
{
    if !pre.in_burst {
        if let Ok(p) = r {
            let s = seq![p] + post.pending;
            assert(s[0] == p);
        }
    } else {
        lemma_skip_ineligible(paths, pre.pending);
    }
}

/// The first path of a burst is the best of the paths that can be selected,
/// so none of them has a lower round-trip time.
pub proof fn lemma_burst_begins_with_best(
    pre: RedundantState,
    paths: Seq<Path>,
    post: RedundantState,
    p: usize,
)
    requires
        !pre.in_burst,
        select_step(pre, paths, post, Ok(p)),
    ensures
        is_best(paths, pre.last_selected, p as int),
        forall|j: int|
            #[trigger] is_candidate(paths, j) ==> paths[p as int].effective_srtt()
                <= paths[j].effective_srtt(),
{
    let s = seq![p] + post.pending;
    assert(s[0] == p);
    lemma_ranking_head_is_best(paths, pre.last_selected, s);
    assert forall|j: int| #[trigger] is_candidate(paths, j) implies paths[p as int].effective_srtt()
        <= paths[j].effective_srtt() by {
        if j != p as int {
            assert(precedes(paths, pre.last_selected, p as int, j));
        }
    }
}

/// Whether the burst stands in `b` as it stood in `a`.
pub open spec fn same_burst(a: RedundantState, b: RedundantState) -> bool {
    &&& a.in_burst == b.in_burst
    &&& a.pending == b.pending
    &&& a.last_selected == b.last_selected
}

/// Taking note of a packet sent does not touch the burst.
pub proof fn lemma_sent_keeps_burst(pre: RedundantState, pkt_num: u64, path_id: usize)
    ensures
        same_burst(pre, sent_step(pre, pkt_num, path_id)),
{
}

/// The ids that the results carry, for results that are all `Ok`.
pub open spec fn returned_ids(results: Seq<Result<usize, Error>>) -> Seq<usize> {
    Seq::new(results.len(), |i: int| results[i]->Ok_0)
}

/// In a burst whose first selection returned the head of the ranking `ranking`,
/// with the paths unchanged, the selections before the `n`th have returned
/// the first `n` paths of the ranking, and the rest of it is pending.
proof fn lemma_burst_prefix(
    paths: Seq<Path>,
    before: Seq<RedundantState>,
    after: Seq<RedundantState>,
    results: Seq<Result<usize, Error>>,
    ranking: Seq<usize>,
    n: int,
)
    requires
        before.len() == results.len(),
        after.len() == results.len(),
        1 <= n < results.len(),
        forall|i: int|
            0 <= i < results.len() ==> select_step(
                #[trigger] before[i],
                paths,
                after[i],
                results[i],
            ),
        forall|i: int|
            0 <= i < results.len() - 1 ==> same_burst(#[trigger] after[i], before[i + 1]),
        forall|i: int| 0 <= i < results.len() - 1 ==> (#[trigger] results[i]) is Ok,
        !before[0].in_burst,
        is_ranking(paths, before[0].last_selected, ranking),
        ranking == seq![results[0]->Ok_0] + after[0].pending,
    ensures
        n <= ranking.len(),
        before[n].in_burst,
        before[n].pending == ranking.skip(n),
        forall|k: int| 0 <= k < n ==> results[k] == Ok::<usize, Error>(#[trigger] ranking[k]),
    decreases n,
{
    if n == 1 {
        // The first selection began the burst.
        assert(select_step(before[0], paths, after[0], results[0]));
        assert(same_burst(after[0], before[1]));
        assert(ranking.skip(1) =~= after[0].pending);
    } else {
        lemma_burst_prefix(paths, before, after, results, ranking, n - 1);
        // The selection before the `n`th found the rest of the ranking
        // pending. All of it can be selected, so nothing was passed over,
        // and as a path was returned, it was the next of the ranking.
        let i = n - 1;
        let pending = ranking.skip(i);
        assert(select_step(before[i], paths, after[i], results[i]));
        assert(same_burst(after[i], before[i + 1]));
        assert(skip_ineligible(paths, pending) == pending);
        assert(pending.drop_first() =~= ranking.skip(n));
    }
}

/// A burst hands out every path that can be selected exactly once, the best
/// first, and then ends with `Done`.
///
/// Take successive selections with the paths unchanged, the first of them
/// outside a burst, up to the first that returns an error; between them,
/// packets may be sent. If no path can be selected, the one selection
/// returns `NoPathAvailable`. Otherwise the last returns `Done`, the ids
/// returned before it are the ranking of the paths that can be selected:
/// none occurs twice, and a path is among them exactly if it can be selected.
pub proof fn lemma_burst_is_complete(
    paths: Seq<Path>,
    before: Seq<RedundantState>,
    after: Seq<RedundantState>,
    results: Seq<Result<usize, Error>>,
)
    requires
        results.len() >= 1,
        before.len() == results.len(),
        after.len() == results.len(),
        !before[0].in_burst,
        forall|i: int|
            0 <= i < results.len() ==> select_step(
                #[trigger] before[i],
                paths,
                after[i],
                results[i],
            ),
        forall|i: int|
            0 <= i < results.len() - 1 ==> same_burst(#[trigger] after[i], before[i + 1]),
        forall|i: int| 0 <= i < results.len() - 1 ==> (#[trigger] results[i]) is Ok,
        results.last() is Err,
    ensures
        is_ranking(paths, before[0].last_selected, returned_ids(results.drop_last())),
        returned_ids(results.drop_last()).no_duplicates(),
        forall|j: int|
            #[trigger] is_candidate(paths, j) <==> exists|k: int|
                0 <= k < results.len() - 1 && #[trigger] returned_ids(results.drop_last())[k] == j,
        results.len() == 1 ==> results[0] == Err::<usize, Error>(Error::NoPathAvailable),
        results.len() > 1 ==> results.last() == Err::<usize, Error>(Error::Done),
{
    let ids = returned_ids(results.drop_last());
    let m = results.len() - 1;
    assert(select_step(before[0], paths, after[0], results[0]));
    if m > 0 {
        let ranking = seq![results[0]->Ok_0] + after[0].pending;
        lemma_burst_prefix(paths, before, after, results, ranking, m);
        // The last selection found the rest of the ranking pending and
        // returned no path: the rest was empty.
        let pending = ranking.skip(m);
        assert(select_step(before[m], paths, after[m], results[m]));
        assert(skip_ineligible(paths, pending) == pending);
        assert(ranking.len() == m);
        assert(ids =~= ranking);
    }
    lemma_ranking_no_duplicates(paths, before[0].last_selected, ids);
}

} // verus!
