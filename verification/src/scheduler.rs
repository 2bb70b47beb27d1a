//! What every scheduling strategy offers to the connection.

use std::time::Instant;
use vstd::prelude::*;

use crate::algorithm::MultipathAlgorithm;
use crate::error::Error;
use crate::minrtt::minrtt_select;
use crate::minrtt::MinRttScheduler;
use crate::path::PathMap;
use crate::rank::is_candidate;
use crate::redundant::select_step;
use crate::redundant::sent_markers;
use crate::redundant::sent_step;
use crate::redundant::RedundantScheduler;
use crate::redundant::RedundantState;
use crate::space::PacketNumSpaceMap;
use crate::space::SentPacket;
use crate::stream::enqueue_all;
use crate::stream::StreamMap;

verus! {

/// `std::time::Instant`, a reading of the monotonic clock. Nothing is claimed
/// of it: the library only hands such a value through.
#[verifier::external_type_specification]
#[verifier::external_body]
pub struct ExInstant(std::time::Instant);

/// The configuration of multipath transport.
#[derive(Debug, Clone, Copy)]
pub struct MultipathConfig {
    /// The scheduling algorithm.
    pub multipath_algor: MultipathAlgorithm,
}

impl Default for MultipathConfig {
    /// Scheduling by lowest round-trip time.
    fn default() -> (r: MultipathConfig)
        ensures
            r.multipath_algor == MultipathAlgorithm::MinRtt,
    {
        MultipathConfig { multipath_algor: MultipathAlgorithm::MinRtt }
    }
}

/// MultipathScheduler is a packet scheduler that decides the path over which
/// the next QUIC packet will be sent.
pub trait MultipathScheduler {
    /// Select a validated path with sufficient congestion window for sending
    /// non-probing packets.
    ///
    /// Whatever the strategy, a path that is returned can be selected, the
    /// only errors are `NoPathAvailable` and `Done`, and `NoPathAvailable` is
    /// returned only if no path can be selected. Paths and spaces are left
    /// as they were, and the reinjection queue of the streams is at most
    /// appended to, within what it takes.
    fn on_select(
        &mut self,
        paths: &mut PathMap,
        spaces: &mut PacketNumSpaceMap,
        streams: &mut StreamMap,
    ) -> (r: Result<usize, Error>)
        ensures
            r matches Ok(p) ==> is_candidate(old(paths)@, p as int),
            r matches Err(e) ==> e is NoPathAvailable || e is Done,
            r matches Err(Error::NoPathAvailable) ==> forall|j: int| !is_candidate(old(paths)@, j),
            *final(paths) == *old(paths),
            *final(spaces) == *old(spaces),
            final(streams).has_data() == old(streams).has_data(),
            final(streams).limit() == old(streams).limit(),
            old(streams).queue().is_prefix_of(final(streams).queue()),
            old(streams).wf() ==> final(streams).wf(),
    ;

    /// Process a packet sent event.
    ///
    /// Whatever the strategy, paths and spaces are left as they were, and the
    /// reinjection queue of the streams is at most appended to, within what
    /// it takes.
    fn on_sent(
        &mut self,
        packet: &SentPacket,
        now: Instant,
        path_id: usize,
        paths: &mut PathMap,
        spaces: &mut PacketNumSpaceMap,
        streams: &mut StreamMap,
    )
        ensures
            *final(paths) == *old(paths),
            *final(spaces) == *old(spaces),
            final(streams).has_data() == old(streams).has_data(),
            final(streams).limit() == old(streams).limit(),
            old(streams).queue().is_prefix_of(final(streams).queue()),
            old(streams).wf() ==> final(streams).wf(),
    {
    }
}

/// A scheduler of one of the available algorithms.
pub enum Scheduler {
    /// Scheduling by lowest round-trip time.
    MinRtt(MinRttScheduler),
    /// Redundant scheduling.
    Redundant(RedundantScheduler),
}

impl Scheduler {
    /// The algorithm that the scheduler follows.
    pub open spec fn algorithm(&self) -> MultipathAlgorithm {
        match self {
            Scheduler::MinRtt(_) => MultipathAlgorithm::MinRtt,
            Scheduler::Redundant(_) => MultipathAlgorithm::Redundant,
        }
    }

    /// The algorithm that the scheduler follows.
    pub fn algor(&self) -> (r: MultipathAlgorithm)
        ensures
            r == self.algorithm(),
    {
        match self {
            Scheduler::MinRtt(_) => MultipathAlgorithm::MinRtt,
            Scheduler::Redundant(_) => MultipathAlgorithm::Redundant,
        }
    }
}

impl MultipathScheduler for Scheduler {
    /// Selects as the strategy in use does.
    fn on_select(
        &mut self,
        paths: &mut PathMap,
        spaces: &mut PacketNumSpaceMap,
        streams: &mut StreamMap,
    ) -> (r: Result<usize, Error>)
        ensures
            match *old(self) {
                Scheduler::MinRtt(before) => {
                    &&& *final(self) matches Scheduler::MinRtt(after)
                    &&& r == minrtt_select(old(paths)@, before.last())
                    &&& after.last() == match r {
                        Ok(p) => Some(p),
                        Err(_) => before.last(),
                    }
                },
                Scheduler::Redundant(before) => {
                    &&& *final(self) matches Scheduler::Redundant(after)
                    &&& select_step(before@, old(paths)@, after@, r)
                    &&& before@.wf() ==> after@.wf()
                },
            },
            *final(streams) == *old(streams),
    {
        match self {
            Scheduler::MinRtt(scheduler) => scheduler.on_select(paths, spaces, streams),
            Scheduler::Redundant(scheduler) => scheduler.on_select(paths, spaces, streams),
        }
    }

    /// Takes note of a packet sent as the strategy in use does.
    fn on_sent(
        &mut self,
        packet: &SentPacket,
        now: Instant,
        path_id: usize,
        paths: &mut PathMap,
        spaces: &mut PacketNumSpaceMap,
        streams: &mut StreamMap,
    )
        ensures
            match *old(self) {
                Scheduler::MinRtt(before) => {
                    &&& *final(self) matches Scheduler::MinRtt(after)
                    &&& after.last() == Some(path_id)
                    &&& *final(streams) == *old(streams)
                },
                Scheduler::Redundant(before) => {
                    &&& *final(self) matches Scheduler::Redundant(after)
                    &&& after@ == sent_step(before@, packet.pkt_num, path_id)
                    &&& final(streams).queue() == enqueue_all(
                        old(streams).queue(),
                        old(streams).limit(),
                        sent_markers(before@, packet.ranges@, path_id),
                    )
                    &&& before@.wf() ==> after@.wf()
                },
            },
    {
        match self {
            Scheduler::MinRtt(scheduler) => scheduler.on_sent(
                packet,
                now,
                path_id,
                paths,
                spaces,
                streams,
            ),
            Scheduler::Redundant(scheduler) => scheduler.on_sent(
                packet,
                now,
                path_id,
                paths,
                spaces,
                streams,
            ),
        }
    }
}

/// Build a multipath scheduler: one of the configured algorithm, which has
/// not selected or sent anything yet.
pub fn build_multipath_scheduler(conf: &MultipathConfig) -> (r: Box<Scheduler>)
    ensures
        r.algorithm() == conf.multipath_algor,
        match *r {
            Scheduler::MinRtt(scheduler) => scheduler.last() is None,
            Scheduler::Redundant(scheduler) => scheduler@ == RedundantState::initial(),
        },
{
    match conf.multipath_algor {
        MultipathAlgorithm::MinRtt => Box::new(Scheduler::MinRtt(MinRttScheduler::new(conf))),
        MultipathAlgorithm::Redundant => Box::new(
            Scheduler::Redundant(RedundantScheduler::new(conf)),
        ),
    }
}

} // verus!
