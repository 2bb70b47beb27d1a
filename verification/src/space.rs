//! The packet number spaces as the scheduler sees them: for every path,
//! whether something is ready to be packed; and the record of a packet that
//! was sent.

use vstd::prelude::*;

use crate::stream::StreamRange;

verus! {

/// What is waiting to be packed in the packet number space of one path.
#[derive(Debug, Clone, Copy, PartialEq, Eq, Structural)]
pub struct PacketNumSpace {
    /// An acknowledgement is due.
    pub ack_pending: bool,
    /// Handshake data is waiting.
    pub crypto_pending: bool,
    /// A ping is due.
    pub ping_pending: bool,
    /// Application data is waiting.
    pub data_pending: bool,
}

impl PacketNumSpace {
    /// Whether any frame is ready to be packed.
    pub open spec fn sendable(&self) -> bool {
        self.ack_pending || self.crypto_pending || self.ping_pending || self.data_pending
    }

    /// A space in which nothing is waiting.
    pub fn new() -> (r: PacketNumSpace)
        ensures
            !r.sendable(),
            r == (PacketNumSpace {
                ack_pending: false,
                crypto_pending: false,
                ping_pending: false,
                data_pending: false,
            }),
    {
        PacketNumSpace {
            ack_pending: false,
            crypto_pending: false,
            ping_pending: false,
            data_pending: false,
        }
    }

    /// Whether any frame is ready to be packed.
    pub fn has_sendable(&self) -> (r: bool)
        ensures
            r == self.sendable(),
    {
        self.ack_pending || self.crypto_pending || self.ping_pending || self.data_pending
    }
}

/// The packet number spaces of a connection, one for each path, by path id.
pub struct PacketNumSpaceMap {
    spaces: Vec<PacketNumSpace>,
}

impl PacketNumSpaceMap {
    /// The spaces by path id.
    pub closed spec fn view(&self) -> Seq<PacketNumSpace> {
        self.spaces@
    }

    /// No spaces yet.
    pub fn new() -> (r: PacketNumSpaceMap)
        ensures
            r@ == Seq::<PacketNumSpace>::empty(),
    {
        PacketNumSpaceMap { spaces: Vec::new() }
    }

    /// Adds the space of the next path, with nothing waiting in it, and
    /// returns that path's id.
    pub fn add(&mut self) -> (path_id: usize)
        ensures
            path_id == old(self)@.len(),
            final(self)@ == old(self)@.push(
                (PacketNumSpace {
                    ack_pending: false,
                    crypto_pending: false,
                    ping_pending: false,
                    data_pending: false,
                }),
            ),
    {
        let path_id = self.spaces.len();
        self.spaces.push(PacketNumSpace::new());
        path_id
    }

    /// Replaces what is known of the space of `path_id`. Returns whether the
    /// space exists; if it does not, nothing changes.
    pub fn set(&mut self, path_id: usize, space: PacketNumSpace) -> (found: bool)
        ensures
            found == (path_id < old(self)@.len()),
            found ==> final(self)@ == old(self)@.update(path_id as int, space),
            !found ==> final(self)@ == old(self)@,
    {
        if path_id < self.spaces.len() {
            self.spaces[path_id] = space;
            true
        } else {
            false
        }
    }

    /// Whether something is ready to be packed for the path. A path without
    /// a space has nothing to send.
    pub fn has_sendable(&self, path_id: usize) -> (r: bool)
        ensures
            r == (path_id < self@.len() && self@[path_id as int].sendable()),
    {
        if path_id < self.spaces.len() {
            self.spaces[path_id].has_sendable()
        } else {
            false
        }
    }
}

/// A packet that the transport has finished serialising.
pub struct SentPacket {
    /// The packet number.
    pub pkt_num: u64,
    /// The size of the packet in bytes.
    pub sent_size: usize,
    /// The stream byte ranges that the packet carries, in the order of its
    /// frames.
    pub ranges: Vec<StreamRange>,
}

} // verus!
