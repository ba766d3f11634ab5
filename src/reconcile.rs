use vstd::prelude::*;
use crate::chain::{ChannelEnd, ChannelHandler};
use crate::routing::Router;
use crate::packet::Packet;

verus! {

/// The identifiers of both ends of a channel, read from one channel end.
#[derive(Clone, Debug, PartialEq, Eq)]
pub struct PathIdentifiers {
    pub port_id: String,
    pub channel_id: String,
    pub counterparty_port_id: String,
    pub counterparty_channel_id: String,
}

/// Why pending packets could not be computed.
#[derive(Clone, Copy, Debug, PartialEq, Eq, Structural)]
pub enum ReconcileError {
    /// The channel end names no counterparty channel yet.
    CounterpartyUnresolved,
    /// The counterparty's store is not the other end of this channel.
    PathMismatch,
}

impl PathIdentifiers {
    /// The path of `channel`; `None` while it has no counterparty channel.
    pub fn from_channel_end(channel: &ChannelEnd) -> (r: Option<PathIdentifiers>)
        ensures
            r is None <==> channel.counterparty_channel_id is None,
            r matches Some(p) ==> {
                &&& p.port_id@ == channel.port_id@
                &&& p.channel_id@ == channel.channel_id@
                &&& p.counterparty_port_id@ == channel.counterparty_port_id@
                &&& p.counterparty_channel_id@ == channel.counterparty_channel_id->Some_0@
            },
    {
        match &channel.counterparty_channel_id {
            Some(c) => Some(
                PathIdentifiers {
                    port_id: channel.port_id.clone(),
                    channel_id: channel.channel_id.clone(),
                    counterparty_port_id: channel.counterparty_port_id.clone(),
                    counterparty_channel_id: c.clone(),
                },
            ),
            None => None,
        }
    }
}

pub open spec fn strictly_increasing(s: Seq<u64>) -> bool {
    forall|i: int, j: int| 0 <= i < j < s.len() ==> s[i] < s[j]
}

fn contains(v: &Vec<u64>, x: u64) -> (r: bool)
    ensures
        r == v@.contains(x),
{
    let mut i: usize = 0;
    while i < v.len()
        invariant
            i <= v@.len(),
            forall|j: int| 0 <= j < i ==> v@[j] != x,
        decreases v@.len() - i,
    {
        if v[i] == x {
            return true;
        }
        i = i + 1;
    }
    false
}

/// Inserts `x` into the strictly increasing `v` at its place.
fn insert_sorted(v: &mut Vec<u64>, x: u64)
    requires
        strictly_increasing(old(v)@),
        !old(v)@.contains(x),
    ensures
        strictly_increasing(final(v)@),
        forall|y: u64| final(v)@.contains(y) <==> (old(v)@.contains(y) || y == x),
{
    let mut i: usize = 0;
    while i < v.len() && v[i] < x
        invariant
            i <= v@.len(),
            forall|j: int| 0 <= j < i ==> v@[j] < x,
        decreases v@.len() - i,
    {
        i = i + 1;
    }
    let ghost s = v@;
    v.insert(i, x);
    assert(v@ == s.insert(i as int, x));
    assert forall|a: int, b: int| 0 <= a < b < v@.len() implies v@[a] < v@[b] by {
        if i < s.len() {
            assert(s[i as int] >= x);
            assert(s[i as int] != x);
        }
    }
    assert forall|y: u64| v@.contains(y) <==> (s.contains(y) || y == x) by {
        if v@.contains(y) {
            let k = choose|k: int| 0 <= k < v@.len() && v@[k] == y;
            if k < i {
                assert(s[k] == y);
            } else if k > i {
                assert(s[k - 1] == y);
            }
        }
        if s.contains(y) {
            let k = choose|k: int| 0 <= k < s.len() && s[k] == y;
            if k < i {
                assert(v@[k] == y);
            } else {
                assert(v@[k + 1] == y);
            }
        }
        if y == x {
            assert(v@[i as int] == y);
        }
    }
}

/// The sequences in `commitments` that are not in `received`, in
/// ascending order, each once.
pub fn unreceived_sequences(commitments: &Vec<u64>, received: &Vec<u64>) -> (r: Vec<u64>)
    ensures
        strictly_increasing(r@),
        forall|s: u64| r@.contains(s) <==> (commitments@.contains(s) && !received@.contains(s)),
{
    let mut out: Vec<u64> = Vec::new();
    let mut i: usize = 0;
    while i < commitments.len()
        invariant
            i <= commitments@.len(),
            strictly_increasing(out@),
            forall|s: u64|
                out@.contains(s) <==> (exists|j: int|
                    0 <= j < i && #[trigger] commitments@[j] == s) && !received@.contains(s),
        decreases commitments@.len() - i,
    {
        let c = commitments[i];
        if !contains(received, c) && !contains(&out, c) {
            insert_sorted(&mut out, c);
        }
        assert forall|s: u64|
            out@.contains(s) <==> (exists|j: int|
                0 <= j < i + 1 && #[trigger] commitments@[j] == s) && !received@.contains(s) by {
            if s == c {
                assert(commitments@[i as int] == s);
            }
            if exists|j: int| 0 <= j < i + 1 && #[trigger] commitments@[j] == s {
                let j = choose|j: int| 0 <= j < i + 1 && #[trigger] commitments@[j] == s;
                if j < i {
                    assert(exists|j: int| 0 <= j < i && #[trigger] commitments@[j] == s);
                }
            }
        }
        i = i + 1;
    }
    assert forall|s: u64| out@.contains(s) <==> (commitments@.contains(s) && !received@.contains(s)) by {
        if commitments@.contains(s) {
            let j = choose|j: int| 0 <= j < commitments@.len() && commitments@[j] == s;
            assert(commitments@[j] == s);
        }
    }
    out
}

/// The packets that `counterparty` sent toward `chain` and that `chain` has
/// not received: sequences in ascending order. Fails before looking at
/// either store while `chain`'s channel end names no counterparty channel.
///
/// The result is a snapshot: receiving a packet twice is harmless, so a
/// stale result only causes redundant relaying.
pub fn pending_sends<R1: Router, R2: Router>(
    chain: &ChannelHandler<R1>,
    counterparty: &ChannelHandler<R2>,
) -> (r: Result<Vec<u64>, ReconcileError>)
    ensures
        chain.channel().counterparty_channel_id is None ==> r == Err::<Vec<u64>, ReconcileError>(
            ReconcileError::CounterpartyUnresolved,
        ),
        chain.channel().counterparty_channel_id matches Some(c) ==> if counterparty.channel().port_id@
            == chain.channel().counterparty_port_id@ && counterparty.channel().channel_id@ == c@ {
            &&& r matches Ok(v)
            &&& strictly_increasing(v@)
            &&& forall|s: u64|
                v@.contains(s) <==> counterparty.commitments().contains_key(s)
                    && !chain.receipts().contains_key(s)
        } else {
            r == Err::<Vec<u64>, ReconcileError>(ReconcileError::PathMismatch)
        },
{
    let path = match PathIdentifiers::from_channel_end(chain.channel_end()) {
        Some(p) => p,
        None => {
            return Err(ReconcileError::CounterpartyUnresolved);
        },
    };
    let other = counterparty.channel_end();
    if !(other.port_id == path.counterparty_port_id && other.channel_id
        == path.counterparty_channel_id) {
        return Err(ReconcileError::PathMismatch);
    }
    let commitments = counterparty.commitment_sequences();
    let received = chain.received_among(&commitments);
    Ok(unreceived_sequences(&commitments, &received))
}

/// The packets behind `pending_sends`, in the same order, for building
/// receive messages.
pub fn pending_packets<'a, R1: Router, R2: Router>(
    chain: &ChannelHandler<R1>,
    counterparty: &'a ChannelHandler<R2>,
) -> (r: Result<Vec<&'a Packet>, ReconcileError>)
    requires
        counterparty.wf(),
    ensures
        chain.channel().counterparty_channel_id is None ==> r == Err::<Vec<&'a Packet>, ReconcileError>(
            ReconcileError::CounterpartyUnresolved,
        ),
        chain.channel().counterparty_channel_id matches Some(c) ==> if counterparty.channel().port_id@
            == chain.channel().counterparty_port_id@ && counterparty.channel().channel_id@ == c@ {
            &&& r matches Ok(v)
            &&& strictly_increasing(v@.map_values(|p: &Packet| p.sequence))
            &&& forall|s: u64|
                v@.map_values(|p: &Packet| p.sequence).contains(s) <==> counterparty.commitments().contains_key(s)
                    && !chain.receipts().contains_key(s)
            &&& forall|i: int| 0 <= i < v@.len() ==> *v@[i] == counterparty.commitments()[v@[i].sequence]
        } else {
            r == Err::<Vec<&'a Packet>, ReconcileError>(ReconcileError::PathMismatch)
        },
{
    let seqs = match pending_sends(chain, counterparty) {
        Ok(v) => v,
        Err(e) => {
            return Err(e);
        },
    };
    let mut out: Vec<&'a Packet> = Vec::new();
    let mut i: usize = 0;
    while i < seqs.len()
        invariant
            i <= seqs@.len(),
            counterparty.wf(),
            out@.len() == i,
            forall|s: u64| #[trigger] seqs@.contains(s) ==> counterparty.commitments().contains_key(s),
            forall|j: int| 0 <= j < i ==> out@[j].sequence == seqs@[j],
            forall|j: int| 0 <= j < i ==> *out@[j] == counterparty.commitments()[seqs@[j]],
        decreases seqs@.len() - i,
    {
        assert(seqs@.contains(seqs@[i as int]));
        match counterparty.commitment(seqs[i]) {
            Some(p) => {
                proof {
                    counterparty.lemma_commitment_sequence(seqs@[i as int]);
                }
                out.push(p);
            },
            None => {},
        }
        i = i + 1;
    }
    assert(out@.map_values(|p: &Packet| p.sequence) =~= seqs@);
    Ok(out)
}

} // verus!
