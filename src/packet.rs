use vstd::prelude::*;

verus! {

/// A block height: revision number first, then height within the revision.
#[derive(Clone, Copy, Debug, PartialEq, Eq, Structural)]
pub struct Height {
    pub revision_number: u64,
    pub revision_height: u64,
}

impl Height {
    /// The zero height, which stands for a disabled height timeout.
    pub fn zero() -> (r: Height)
        ensures
            r.is_zero_spec(),
    {
        Height { revision_number: 0, revision_height: 0 }
    }

    pub open spec fn is_zero_spec(&self) -> bool {
        self.revision_number == 0 && self.revision_height == 0
    }

    pub fn is_zero(&self) -> (r: bool)
        ensures
            r == self.is_zero_spec(),
    {
        self.revision_number == 0 && self.revision_height == 0
    }

    /// Heights are ordered by revision number, then by height.
    pub open spec fn ge_spec(&self, o: Height) -> bool {
        self.revision_number > o.revision_number || (self.revision_number == o.revision_number
            && self.revision_height >= o.revision_height)
    }

    pub fn ge(&self, o: &Height) -> (r: bool)
        ensures
            r == self.ge_spec(*o),
    {
        self.revision_number > o.revision_number || (self.revision_number == o.revision_number
            && self.revision_height >= o.revision_height)
    }
}

/// A packet sent over a channel. It is identified by its source port, source
/// channel and sequence.
#[derive(Clone, Debug)]
pub struct Packet {
    pub source_port: String,
    pub source_channel: String,
    pub destination_port: String,
    pub destination_channel: String,
    pub sequence: u64,
    pub data: Vec<u8>,
    /// Zero disables the height timeout.
    pub timeout_height: Height,
    /// Nanoseconds; zero disables the timestamp timeout.
    pub timeout_timestamp: u64,
}

/// Whether a packet with these timeouts has expired at height `h` and time `t`.
pub open spec fn timed_out(timeout_height: Height, timeout_timestamp: u64, h: Height, t: u64) -> bool {
    (!timeout_height.is_zero_spec() && h.ge_spec(timeout_height)) || (timeout_timestamp != 0 && t
        >= timeout_timestamp)
}

impl Packet {
    /// Whether this packet has expired at height `h` and time `t` (nanoseconds).
    pub fn has_timed_out(&self, h: &Height, t: u64) -> (r: bool)
        ensures
            r == timed_out(self.timeout_height, self.timeout_timestamp, *h, t),
    {
        (!self.timeout_height.is_zero() && h.ge(&self.timeout_height)) || (self.timeout_timestamp
            != 0 && t >= self.timeout_timestamp)
    }
}

/// The handshake state of a channel end.
#[derive(Clone, Copy, Debug, PartialEq, Eq, Structural)]
pub enum ChannelState {
    Init,
    TryOpen,
    Open,
    Closed,
}

} // verus!
