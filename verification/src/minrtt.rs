//! Scheduling by lowest round-trip time: every packet goes to the fastest
//! path that can be selected.

use std::time::Instant;
use vstd::prelude::*;

use crate::error::Error;
use crate::path::Path;
use crate::path::PathMap;
use crate::rank::best_eligible;
use crate::rank::best_eligible_path;
use crate::rank::is_best;
use crate::rank::is_candidate;
use crate::rank::lemma_best_exists;
use crate::rank::lemma_best_is_selected;
use crate::rank::precedes;
use crate::scheduler::MultipathConfig;
use crate::scheduler::MultipathScheduler;
use crate::space::PacketNumSpaceMap;
use crate::space::SentPacket;
use crate::stream::StreamMap;

verus! {

/// What selection returns when `last` was selected last: the best of the
/// paths that can be selected, or `NoPathAvailable` if there is none.
pub open spec fn minrtt_select(paths: Seq<Path>, last: Option<usize>) -> Result<usize, Error> {
    match best_eligible(paths, last) {
        Some(p) => Ok(p as usize),
        None => Err(Error::NoPathAvailable),
    }
}

/// MinRttScheduler sends every packet over the path with the lowest smoothed
/// round-trip time among the paths that can be selected. It remembers the
/// path that it selected last, so that it stays with a path as long as no
/// other is better.
pub struct MinRttScheduler {
    last_selected: Option<usize>,
}

impl MinRttScheduler {
    /// The path that was selected last, if any.
    pub closed spec fn last(&self) -> Option<usize> {
        self.last_selected
    }

    /// A scheduler that has not selected a path yet.
    pub fn new(conf: &MultipathConfig) -> (r: MinRttScheduler)
        ensures
            r.last() is None,
    {
        MinRttScheduler { last_selected: None }
    }

    /// The path that was selected last, if any.
    pub fn last_selected(&self) -> (r: Option<usize>)
        ensures
            r == self.last(),
    {
        self.last_selected
    }
}

impl MultipathScheduler for MinRttScheduler {
    /// Returns the best of the paths that can be selected and remembers it,
    /// or returns `NoPathAvailable` and remembers what it did before.
    fn on_select(
        &mut self,
        paths: &mut PathMap,
        spaces: &mut PacketNumSpaceMap,
        streams: &mut StreamMap,
    ) -> (r: Result<usize, Error>)
        ensures
            r == minrtt_select(old(paths)@, old(self).last()),
            final(self).last() == match r {
                Ok(p) => Some(p),
                Err(_) => old(self).last(),
            },
            *final(streams) == *old(streams),
    {
        proof {
            lemma_best_exists(paths@, self.last_selected);
        }
        match best_eligible_path(paths, self.last_selected) {
            Some(p) => {
                self.last_selected = Some(p);
                Ok(p)
            },
            None => Err(Error::NoPathAvailable),
        }
    }

    /// Remembers `path_id` as the path that was selected last. Nothing else
    /// changes.
    fn on_sent(
        &mut self,
        packet: &SentPacket,
        now: Instant,
        path_id: usize,
        paths: &mut PathMap,
        spaces: &mut PacketNumSpaceMap,
        streams: &mut StreamMap,
    )
        ensures
            final(self).last() == Some(path_id),
            *final(streams) == *old(streams),
    {
        self.last_selected = Some(path_id);
    }
}

/// If one path that can be selected has a strictly lower round-trip time
/// than every other path that can, it is the one selected, whatever was
/// selected before.
pub proof fn lemma_strict_minimum_is_selected(paths: Seq<Path>, last: Option<usize>, q: int)
    requires
        is_candidate(paths, q),
        forall|j: int|
            #[trigger] is_candidate(paths, j) && j != q ==> paths[q].effective_srtt()
                < paths[j].effective_srtt(),
    ensures
        minrtt_select(paths, last) == Ok::<usize, Error>(q as usize),
{
    assert(is_best(paths, last, q));
    lemma_best_is_selected(paths, last, q);
}

/// Selection is stable: with the paths as they are, the path that was
/// selected is selected again by the next call. In particular the choice
/// between paths of equal round-trip time and equal priority does not
/// alternate.
pub proof fn lemma_selection_is_stable(paths: Seq<Path>, last: Option<usize>, p: usize)
    requires
        minrtt_select(paths, last) == Ok::<usize, Error>(p),
        paths.len() <= usize::MAX,
    ensures
        minrtt_select(paths, Some(p)) == Ok::<usize, Error>(p),
{
    // With itself as the path selected last, the best path ranks no worse
    // against any other than it did, so it is the best still.
    let b = best_eligible(paths, last)->Some_0;
    assert forall|j: int| #[trigger] is_candidate(paths, j) && j != b implies precedes(
        paths,
        Some(p),
        b,
        j,
    ) by {
        assert(precedes(paths, last, b, j));
    }
    lemma_best_is_selected(paths, Some(p), b);
}

/// A path that is selected can be selected: it is active and validated, has
/// a destination connection id, and its congestion window leaves room for a
/// datagram of minimum size.
pub proof fn lemma_selected_is_eligible(paths: Seq<Path>, last: Option<usize>, p: usize)
    requires
        minrtt_select(paths, last) == Ok::<usize, Error>(p),
        paths.len() <= usize::MAX,
    ensures
        p < paths.len(),
        paths[p as int].eligible(),
{
}

} // verus!
