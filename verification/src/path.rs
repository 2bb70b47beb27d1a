//! The path table as the scheduler sees it: for every path its validation
//! state, its flags and what the recovery layer last measured on it.
//!
//! Times are whole microseconds.

use vstd::prelude::*;

verus! {

/// The smallest room, in bytes, that a path's congestion window must leave for
/// the path to be given a packet: one datagram of minimum size.
pub const MIN_DATAGRAM: u64 = 1200;

/// How far the validation of a path has come.
#[derive(Debug, Clone, Copy, PartialEq, Eq, Structural)]
pub enum PathState {
    /// No probe has been sent yet.
    Unvalidated,
    /// A probe is on its way and has not been answered.
    Validating,
    /// The peer has answered a probe on this path.
    Validated,
    /// Validation failed, or the path was given up later.
    Failed,
}

/// What can happen to the validation of a path.
#[derive(Debug, Clone, Copy, PartialEq, Eq, Structural)]
pub enum PathEvent {
    /// A probe was sent on the path.
    ProbeSent,
    /// The peer acknowledged the probe.
    ProbeAcked,
    /// The probe was not answered in time.
    ProbeTimeout,
    /// The path degraded, or its connection id was reset.
    Degraded,
}

impl PathState {
    /// The state that follows `self` on `event`. A probe that is sent moves an
    /// unvalidated path to validating, and its acknowledgement moves it on to
    /// validated. A timeout fails a path that is not validated yet, and a
    /// validated path fails when it degrades. Every other event leaves the
    /// state as it is; in particular nothing leads out of `Failed`.
    pub open spec fn next(self, event: PathEvent) -> PathState {
        match (self, event) {
            (PathState::Unvalidated, PathEvent::ProbeSent) => PathState::Validating,
            (PathState::Validating, PathEvent::ProbeAcked) => PathState::Validated,
            (PathState::Unvalidated, PathEvent::ProbeTimeout) => PathState::Failed,
            (PathState::Validating, PathEvent::ProbeTimeout) => PathState::Failed,
            (PathState::Validated, PathEvent::Degraded) => PathState::Failed,
            _ => self,
        }
    }

    /// Applies `event` to the state.
    pub fn on_event(self, event: PathEvent) -> (r: PathState)
        ensures
            r == self.next(event),
    {
        match self {
            PathState::Unvalidated => match event {
                PathEvent::ProbeSent => PathState::Validating,
                PathEvent::ProbeTimeout => PathState::Failed,
                _ => self,
            },
            PathState::Validating => match event {
                PathEvent::ProbeAcked => PathState::Validated,
                PathEvent::ProbeTimeout => PathState::Failed,
                _ => self,
            },
            PathState::Validated => match event {
                PathEvent::Degraded => PathState::Failed,
                _ => self,
            },
            PathState::Failed => self,
        }
    }
}

/// Nothing leads out of `Failed`, and `Validated` is entered only from
/// `Validating`, by the acknowledgement of a probe.
pub proof fn lemma_path_state_machine(state: PathState, event: PathEvent)
    ensures
        state is Failed ==> state.next(event) is Failed,
        state.next(event) is Validated && !(state is Validated) ==> state is Validating
            && event is ProbeAcked,
        state.next(event) is Validating ==> state is Validating || (state is Unvalidated
            && event is ProbeSent),
        state.next(event) is Unvalidated ==> state is Unvalidated,
{
}

/// What the scheduler reads of one path.
#[derive(Debug, Clone, Copy, PartialEq, Eq, Structural)]
pub struct Path {
    /// How far validation has come.
    pub state: PathState,
    /// Whether the path may carry non-probing packets.
    pub active: bool,
    /// The sequence number of the destination connection id in use on the
    /// path, if one has been assigned.
    pub dcid_seq: Option<u64>,
    /// Whether this is the path the connection was established on.
    pub is_primary: bool,
    /// The smoothed round-trip time; zero as long as none was measured.
    pub srtt: u64,
    /// The round-trip time assumed until the first measurement.
    pub initial_rtt: u64,
    /// The congestion window, in bytes.
    pub cwnd: u64,
    /// The bytes sent and neither acknowledged nor declared lost.
    pub in_flight: u64,
}

impl Path {
    /// Whether a destination connection id is available on the path.
    pub open spec fn dcid_available(&self) -> bool {
        self.dcid_seq is Some
    }

    /// The bytes that the congestion window still admits; negative when more
    /// is in flight than the window allows.
    pub open spec fn headroom(&self) -> int {
        self.cwnd - self.in_flight
    }

    /// A path can be selected when it is active and validated, has a
    /// destination connection id, and its congestion window leaves room for a
    /// datagram of minimum size.
    pub open spec fn eligible(&self) -> bool {
        &&& self.active
        &&& self.state == PathState::Validated
        &&& self.dcid_available()
        &&& self.headroom() >= MIN_DATAGRAM
    }

    /// The round-trip time by which the path is ranked: the smoothed one, or
    /// the initial one as long as nothing was measured.
    pub open spec fn effective_srtt(&self) -> u64 {
        if self.srtt == 0 {
            self.initial_rtt
        } else {
            self.srtt
        }
    }

    /// A path that has not been probed: inactive unless primary, without a
    /// connection id unless primary, with nothing measured and no window.
    pub fn new(is_primary: bool, initial_rtt: u64) -> (r: Path)
        ensures
            r == (Path {
                state: PathState::Unvalidated,
                active: is_primary,
                dcid_seq: if is_primary {
                    Some(0u64)
                } else {
                    None
                },
                is_primary,
                srtt: 0,
                initial_rtt,
                cwnd: 0,
                in_flight: 0,
            }),
    {
        Path {
            state: PathState::Unvalidated,
            active: is_primary,
            dcid_seq: if is_primary {
                Some(0)
            } else {
                None
            },
            is_primary,
            srtt: 0,
            initial_rtt,
            cwnd: 0,
            in_flight: 0,
        }
    }

    /// Whether the path can be selected.
    pub fn is_eligible(&self) -> (r: bool)
        ensures
            r == self.eligible(),
    {
        self.active && self.is_validated() && self.dcid_seq.is_some() && self.cwnd
            >= self.in_flight && self.cwnd - self.in_flight >= MIN_DATAGRAM
    }

    /// Whether the peer has answered a probe on the path.
    pub fn is_validated(&self) -> (r: bool)
        ensures
            r == (self.state == PathState::Validated),
    {
        match self.state {
            PathState::Validated => true,
            _ => false,
        }
    }

    /// The round-trip time by which the path is ranked.
    pub fn rank_rtt(&self) -> (r: u64)
        ensures
            r == self.effective_srtt(),
    {
        if self.srtt == 0 {
            self.initial_rtt
        } else {
            self.srtt
        }
    }
}

/// The paths of a connection. A path is known by its index in the table, which
/// never changes. The first entry is the primary path, and no other is.
pub struct PathMap {
    paths: Vec<Path>,
    max_paths: usize,
}

/// The first entry is primary, and it alone.
pub open spec fn primary_first(paths: Seq<Path>) -> bool {
    &&& paths.len() > 0
    &&& forall|i: int| 0 <= i < paths.len() ==> ((#[trigger] paths[i]).is_primary <==> i == 0)
}

impl PathMap {
    #[verifier::type_invariant]
    spec fn inv(self) -> bool {
        self.paths@.len() > 0
    }

    /// The paths by id. Whether a path is primary follows from its id alone.
    pub closed spec fn view(&self) -> Seq<Path> {
        Seq::new(self.paths@.len(), |i: int| (Path { is_primary: i == 0, ..self.paths@[i] }))
    }

    /// The number of paths that the table takes.
    pub closed spec fn capacity(&self) -> usize {
        self.max_paths
    }

    /// A table with the primary path alone. The path is entered as primary,
    /// whatever its flag says.
    pub fn new(initial_path: Path, max_paths: usize) -> (r: PathMap)
        ensures
            r@ == seq![(Path { is_primary: true, ..initial_path })],
            r.capacity() == max_paths,
    {
        let mut paths: Vec<Path> = Vec::new();
        paths.push(initial_path);
        PathMap { paths, max_paths }
    }

    /// The number of paths. There is always the primary path, at id 0, and no
    /// other path is primary.
    pub fn len(&self) -> (r: usize)
        ensures
            r == self@.len(),
            primary_first(self@),
    {
        proof {
            use_type_invariant(self);
        }
        self.paths.len()
    }

    /// The path with the given id, if there is one.
    pub fn get(&self, path_id: usize) -> (r: Option<Path>)
        ensures
            path_id < self@.len() ==> r == Some(self@[path_id as int]),
            path_id >= self@.len() ==> r is None,
    {
        if path_id < self.paths.len() {
            let mut path = self.paths[path_id];
            path.is_primary = path_id == 0;
            Some(path)
        } else {
            None
        }
    }

    /// Adds a path and returns its id, the next free index. The path is
    /// entered as not primary, whatever its flag says. Nothing is added to a
    /// table that is full.
    pub fn insert_path(&mut self, path: Path) -> (r: Option<usize>)
        ensures
            final(self).capacity() == old(self).capacity(),
            old(self)@.len() < old(self).capacity() ==> r == Some(old(self)@.len() as usize)
                && final(self)@ == old(self)@.push((Path { is_primary: false, ..path })),
            old(self)@.len() >= old(self).capacity() ==> r is None && final(self)@ == old(self)@,
    {
        proof {
            use_type_invariant(&*self);
        }
        let id = self.paths.len();
        if id >= self.max_paths {
            return None;
        }
        // The longer table is built aside and put in place at once: the
        // table is whole at every point at which a panic could unwind.
        let mut paths = self.paths.clone();
        paths.push(path);
        self.paths = paths;
        Some(id)
    }

    /// Puts `path` in the place of the path `path_id`, which stays primary or
    /// not as it was.
    fn replace(&mut self, path_id: usize, path: Path)
        requires
            path_id < old(self)@.len(),
        ensures
            final(self).capacity() == old(self).capacity(),
            final(self)@ == old(self)@.update(
                path_id as int,
                (Path { is_primary: path_id == 0, ..path }),
            ),
    {
        self.paths[path_id] = path;
        assert(self@ =~= old(self)@.update(
            path_id as int,
            (Path { is_primary: path_id == 0, ..path }),
        ));
    }

    /// Marks the path as active or inactive. Returns whether the path exists;
    /// if it does not, nothing changes.
    pub fn set_active(&mut self, path_id: usize, active: bool) -> (found: bool)
        ensures
            final(self).capacity() == old(self).capacity(),
            found == (path_id < old(self)@.len()),
            found ==> final(self)@ == old(self)@.update(
                path_id as int,
                (Path { active, ..old(self)@[path_id as int] }),
            ),
            !found ==> final(self)@ == old(self)@,
    {
        match self.get(path_id) {
            Some(path) => {
                let mut path = path;
                path.active = active;
                self.replace(path_id, path);
                true
            },
            None => false,
        }
    }

    /// Moves the validation of the path on by `event`. Returns whether the
    /// path exists; if it does not, nothing changes.
    pub fn on_event(&mut self, path_id: usize, event: PathEvent) -> (found: bool)
        ensures
            final(self).capacity() == old(self).capacity(),
            found == (path_id < old(self)@.len()),
            found ==> final(self)@ == old(self)@.update(
                path_id as int,
                (Path {
                    state: old(self)@[path_id as int].state.next(event),
                    ..old(self)@[path_id as int]
                }),
            ),
            !found ==> final(self)@ == old(self)@,
    {
        match self.get(path_id) {
            Some(path) => {
                let mut path = path;
                path.state = path.state.on_event(event);
                self.replace(path_id, path);
                true
            },
            None => false,
        }
    }

    /// Assigns a destination connection id to the path, or takes it away.
    /// Returns whether the path exists; if it does not, nothing changes.
    pub fn set_dcid_seq(&mut self, path_id: usize, dcid_seq: Option<u64>) -> (found: bool)
        ensures
            final(self).capacity() == old(self).capacity(),
            found == (path_id < old(self)@.len()),
            found ==> final(self)@ == old(self)@.update(
                path_id as int,
                (Path { dcid_seq, ..old(self)@[path_id as int] }),
            ),
            !found ==> final(self)@ == old(self)@,
    {
        match self.get(path_id) {
            Some(path) => {
                let mut path = path;
                path.dcid_seq = dcid_seq;
                self.replace(path_id, path);
                true
            },
            None => false,
        }
    }

    /// Records a new smoothed round-trip time for the path. Returns whether
    /// the path exists; if it does not, nothing changes.
    pub fn update_rtt(&mut self, path_id: usize, srtt: u64) -> (found: bool)
        ensures
            final(self).capacity() == old(self).capacity(),
            found == (path_id < old(self)@.len()),
            found ==> final(self)@ == old(self)@.update(
                path_id as int,
                (Path { srtt, ..old(self)@[path_id as int] }),
            ),
            !found ==> final(self)@ == old(self)@,
    {
        match self.get(path_id) {
            Some(path) => {
                let mut path = path;
                path.srtt = srtt;
                self.replace(path_id, path);
                true
            },
            None => false,
        }
    }

    /// Records the congestion window of the path and the bytes in flight on
    /// it. Returns whether the path exists; if it does not, nothing changes.
    pub fn update_congestion(&mut self, path_id: usize, cwnd: u64, in_flight: u64) -> (found: bool)
        ensures
            final(self).capacity() == old(self).capacity(),
            found == (path_id < old(self)@.len()),
            found ==> final(self)@ == old(self)@.update(
                path_id as int,
                (Path { cwnd, in_flight, ..old(self)@[path_id as int] }),
            ),
            !found ==> final(self)@ == old(self)@,
    {
        match self.get(path_id) {
            Some(path) => {
                let mut path = path;
                path.cwnd = cwnd;
                path.in_flight = in_flight;
                self.replace(path_id, path);
                true
            },
            None => false,
        }
    }
}

} // verus!
