use vstd::prelude::*;
use vstd::std_specs::iter::IteratorSpec;
use vstd::std_specs::cmp::OrdSpec;
use std::collections::BTreeMap;
use crate::ids::ModuleId;
use crate::packet::{ChannelState, Height, Packet, timed_out};
use crate::routing::{Module, ModuleError, Router};
use crate::reconcile::strictly_increasing;

verus! {

/// One end of a channel as a chain stores it.
#[derive(Clone, Debug)]
pub struct ChannelEnd {
    pub state: ChannelState,
    pub port_id: String,
    pub channel_id: String,
    pub counterparty_port_id: String,
    /// Unknown until the handshake has reached the counterparty.
    pub counterparty_channel_id: Option<String>,
    /// The module that owns the channel's port.
    pub module_id: ModuleId,
}

/// A state transition that the handler reports to observers.
#[derive(Clone, Copy, Debug, PartialEq, Eq, Structural)]
pub enum Event {
    PacketSent { sequence: u64 },
    PacketReceived { sequence: u64 },
    PacketAcknowledged { sequence: u64 },
    PacketTimedOut { sequence: u64 },
    ChannelOpened,
    ChannelClosed,
}

/// Why the handler refused a channel handshake or closing step.
#[derive(Clone, Debug, PartialEq, Eq)]
pub enum ChannelError {
    /// The channel end is not in the state that the step starts from.
    WrongState,
    ModuleNotFound,
    ModuleRejected { reason: String },
}

/// Why the handler refused a packet message.
#[derive(Clone, Debug, PartialEq, Eq)]
pub enum PacketError {
    ChannelNotOpen,
    MissingCounterparty,
    PortChannelMismatch,
    PacketTimedOut,
    TimeoutNotReached,
    PacketAlreadyReceived,
    PacketCommitmentNotFound,
    ModuleNotFound,
    ModuleRejected { reason: String },
    SequenceOverflow,
}

/// The result of a receive: the acknowledgement written for the packet and
/// whether this call was the one that received it.
#[derive(Clone, Debug)]
pub struct RecvResult {
    pub ack: Option<Vec<u8>>,
    pub fresh: bool,
    /// The write deferred by the module and committed by this call.
    pub deferred_write: Option<Vec<u8>>,
}

/// What committing the deferred write `w` adds to the log of applied writes.
pub open spec fn write_log(w: Option<Vec<u8>>) -> Seq<Seq<u8>> {
    match w {
        Some(v) => seq![v@],
        None => Seq::empty(),
    }
}

pub open spec fn ack_view(a: Option<Vec<u8>>) -> Option<Seq<u8>> {
    match a {
        Some(v) => Some(v@),
        None => None,
    }
}

fn clone_ack(a: &Option<Vec<u8>>) -> (r: Option<Vec<u8>>)
    ensures
        ack_view(r) == ack_view(*a),
{
    match a {
        Some(v) => Some(v.clone()),
        None => None,
    }
}

/// The state that a chain keeps for one channel end: its packet
/// commitments, its receipts with their acknowledgements, the events
/// emitted so far, and the router through which modules are reached.
pub struct ChannelHandler<R> {
    router: R,
    channel: ChannelEnd,
    next_sequence_send: u64,
    commitments: BTreeMap<u64, Packet>,
    receipts: BTreeMap<u64, Option<Vec<u8>>>,
    events: Vec<Event>,
    applied_writes: Vec<Vec<u8>>,
}

/// What the packet handler needs from a chain: here, the router through
/// which the modules are reached.
pub trait Ics26Context {
    type Router: Router;

    fn router(&self) -> &Self::Router;
}

impl<R: Router> Ics26Context for ChannelHandler<R> {
    type Router = R;

    fn router(&self) -> &R {
        &self.router
    }
}

impl<R: Router> ChannelHandler<R> {
    pub closed spec fn router_spec(&self) -> R {
        self.router
    }

    pub closed spec fn channel(&self) -> ChannelEnd {
        self.channel
    }

    pub closed spec fn next_sequence(&self) -> u64 {
        self.next_sequence_send
    }

    /// Commitments of packets sent and not yet acknowledged or timed out.
    pub closed spec fn commitments(&self) -> Map<u64, Packet> {
        self.commitments@
    }

    /// Sequences received, each with the acknowledgement written for it.
    pub closed spec fn receipts(&self) -> Map<u64, Option<Seq<u8>>> {
        self.receipts@.map_values(|a: Option<Vec<u8>>| ack_view(a))
    }

    pub closed spec fn events(&self) -> Seq<Event> {
        self.events@
    }

    /// The deferred writes committed so far, oldest first; each was also
    /// handed to the owning module.
    pub closed spec fn applied_writes(&self) -> Seq<Seq<u8>> {
        self.applied_writes@.map_values(|w: Vec<u8>| w@)
    }

    /// Every commitment is stored under its packet's sequence, and every
    /// sequence sent lies below the next one to send.
    pub closed spec fn wf(&self) -> bool {
        &&& self.router.wf()
        &&& forall|s: u64| #[trigger]
            self.commitments@.contains_key(s) ==> s < self.next_sequence_send
                && self.commitments@[s].sequence == s
    }

    /// Whether `p` was sent from this channel end.
    pub open spec fn is_source_of(&self, p: Packet) -> bool {
        p.source_port@ == self.channel().port_id@ && p.source_channel@ == self.channel().channel_id@
    }

    /// Whether `p` is addressed to this channel end.
    pub open spec fn is_destination_of(&self, p: Packet) -> bool {
        p.destination_port@ == self.channel().port_id@ && p.destination_channel@
            == self.channel().channel_id@
    }

    /// What refuses an acknowledgement or a timeout of `p` before any
    /// module is consulted; `None` where nothing does.
    pub open spec fn terminal_check(&self, p: Packet) -> Option<PacketError> {
        if !self.is_source_of(p) {
            Some(PacketError::PortChannelMismatch)
        } else if !self.commitments().contains_key(p.sequence) {
            Some(PacketError::PacketCommitmentNotFound)
        } else {
            None
        }
    }

    /// A commitment is stored under its packet's sequence.
    pub proof fn lemma_commitment_sequence(&self, s: u64)
        requires
            self.wf(),
            self.commitments().contains_key(s),
        ensures
            self.commitments()[s].sequence == s,
    {
    }

    /// A handler for `channel`, with nothing sent or received.
    pub fn new(router: R, channel: ChannelEnd) -> (r: Self)
        requires
            router.wf(),
        ensures
            r.wf(),
            r.router_spec() == router,
            r.channel() == channel,
            r.next_sequence() == 1,
            r.commitments() == Map::<u64, Packet>::empty(),
            r.receipts() == Map::<u64, Option<Seq<u8>>>::empty(),
            r.events() == Seq::<Event>::empty(),
            r.applied_writes() == Seq::<Seq<u8>>::empty(),
    {
        let r = ChannelHandler {
            router,
            channel,
            next_sequence_send: 1,
            commitments: BTreeMap::new(),
            receipts: BTreeMap::new(),
            events: Vec::new(),
            applied_writes: Vec::new(),
        };
        assert(r.applied_writes() =~= Seq::<Seq<u8>>::empty());
        assert(r.receipts() =~= Map::<u64, Option<Seq<u8>>>::empty());
        r
    }
    /// The channel end this handler serves.
    pub fn channel_end(&self) -> (r: &ChannelEnd)
        ensures
            *r == self.channel(),
    {
        &self.channel
    }

    /// Whether a commitment for `sequence` is held.
    pub fn has_commitment(&self, sequence: u64) -> (r: bool)
        ensures
            r == self.commitments().contains_key(sequence),
    {
        self.commitments.contains_key(&sequence)
    }

    /// The packet committed under `sequence`, if any.
    pub fn commitment(&self, sequence: u64) -> (r: Option<&Packet>)
        ensures
            r is Some <==> self.commitments().contains_key(sequence),
            r matches Some(p) ==> *p == self.commitments()[sequence],
    {
        self.commitments.get(&sequence)
    }

    /// Whether `sequence` has been received.
    pub fn is_received(&self, sequence: u64) -> (r: bool)
        ensures
            r == self.receipts().contains_key(sequence),
    {
        self.receipts.contains_key(&sequence)
    }

    /// The events emitted so far, oldest first.
    pub fn emitted_events(&self) -> (r: &Vec<Event>)
        ensures
            r@ == self.events(),
    {
        &self.events
    }

    /// The deferred writes committed so far, oldest first.
    pub fn committed_writes(&self) -> (r: &Vec<Vec<u8>>)
        ensures
            r@.map_values(|w: Vec<u8>| w@) == self.applied_writes(),
    {
        &self.applied_writes
    }

    /// The sequences that hold a commitment, in ascending order.
    pub fn commitment_sequences(&self) -> (r: Vec<u64>)
        ensures
            strictly_increasing(r@),
            forall|s: u64| r@.contains(s) <==> self.commitments().contains_key(s),
    {
        let mut out: Vec<u64> = Vec::new();
        let ghost ks = vstd::std_specs::btree::spec_keys_iter(&self.commitments).remaining();
        for k in it: self.commitments.keys()
            invariant
                it.seq() == ks,
                out@.len() == it.index(),
                forall|j: int| 0 <= j < it.index() ==> out@[j] == *ks[j],
        {
            out.push(*k);
        }
        proof {
            assert(out@.len() == ks.len());
            assert(vstd::laws_cmp::obeys_cmp::<&u64>());
            assert(vstd::std_specs::btree::increasing_seq(ks));
            assert forall|i: int, j: int| 0 <= i < j < out@.len() implies out@[i] < out@[j] by {
                assert(<&u64 as OrdSpec>::cmp_spec(&ks[i], &ks[j]) is Less);
            }
            assert forall|s: u64| out@.contains(s) <==> self.commitments().contains_key(s) by {
                if out@.contains(s) {
                    let j = choose|j: int| 0 <= j < out@.len() && out@[j] == s;
                    assert(ks.unref()[j] == s);
                    assert(ks.unref().to_set().contains(s));
                }
                if self.commitments().contains_key(s) {
                    assert(ks.unref().to_set().contains(s));
                    assert(ks.unref().contains(s));
                    let j = choose|j: int| 0 <= j < ks.len() && ks.unref()[j] == s;
                    assert(out@[j] == s);
                }
            }
        }
        out
    }

    /// Those of `sequences` that have been received here.
    pub fn received_among(&self, sequences: &Vec<u64>) -> (r: Vec<u64>)
        ensures
            forall|s: u64| r@.contains(s) <==> sequences@.contains(s) && self.receipts().contains_key(s),
    {
        let mut out: Vec<u64> = Vec::new();
        let mut i: usize = 0;
        while i < sequences.len()
            invariant
                i <= sequences@.len(),
                forall|s: u64|
                    out@.contains(s) <==> (exists|j: int|
                        0 <= j < i && #[trigger] sequences@[j] == s) && self.receipts().contains_key(s),
            decreases sequences@.len() - i,
        {
            let c = sequences[i];
            let ghost before = out@;
            if self.receipts.contains_key(&c) {
                out.push(c);
            }
            assert forall|s: u64|
                out@.contains(s) <==> (exists|j: int|
                    0 <= j < i + 1 && #[trigger] sequences@[j] == s) && self.receipts().contains_key(s) by {
                if s == c {
                    assert(sequences@[i as int] == s);
                }
                if out@.contains(s) && s != c {
                    let k = choose|k: int| 0 <= k < out@.len() && out@[k] == s;
                    assert(before[k] == s);
                }
                if before.contains(s) {
                    let k = choose|k: int| 0 <= k < before.len() && before[k] == s;
                    assert(out@[k] == s);
                }
                if exists|j: int| 0 <= j < i + 1 && #[trigger] sequences@[j] == s {
                    let j = choose|j: int| 0 <= j < i + 1 && #[trigger] sequences@[j] == s;
                    if j < i {
                        assert(exists|j: int| 0 <= j < i && #[trigger] sequences@[j] == s);
                    }
                }
                if s == c && self.receipts().contains_key(s) {
                    assert(out@[out@.len() - 1] == s);
                }
            }
            i = i + 1;
        }
        assert forall|s: u64|
            out@.contains(s) <==> sequences@.contains(s) && self.receipts().contains_key(s) by {
            if sequences@.contains(s) {
                let j = choose|j: int| 0 <= j < sequences@.len() && sequences@[j] == s;
                assert(sequences@[j] == s);
            }
        }
        out
    }

    /// The owning module accepts the opening of this channel end, which
    /// stays in `Init` until the counterparty answers.
    pub fn chan_open_init(&mut self, connection_hops: &Vec<String>, version: &str) -> (r: Result<
        (),
        ChannelError,
    >)
        requires
            old(self).wf(),
        ensures
            final(self).wf(),
            old(self).channel().state != ChannelState::Init ==> r == Err::<(), ChannelError>(
                ChannelError::WrongState,
            ),
            old(self).channel().state == ChannelState::Init && !old(self).router_spec().route_ids().contains(
                old(self).channel().module_id@,
            ) ==> r == Err::<(), ChannelError>(ChannelError::ModuleNotFound),
            old(self).channel().state == ChannelState::Init && old(self).router_spec().route_ids().contains(
                old(self).channel().module_id@,
            ) ==> r is Ok || r matches Err(ChannelError::ModuleRejected { .. }),
            r is Ok ==> old(self).channel().state == ChannelState::Init,
            final(self).channel() == old(self).channel(),
            final(self).events() == old(self).events(),
            final(self).next_sequence() == old(self).next_sequence() && final(self).applied_writes() == old(self).applied_writes(),
            final(self).commitments() == old(self).commitments(),
            final(self).receipts() == old(self).receipts(),
            final(self).router_spec().route_ids() == old(self).router_spec().route_ids(),
    {
        if self.channel.state != ChannelState::Init {
            return Err(ChannelError::WrongState);
        }
        let module = match self.router.get_route_mut(&self.channel.module_id) {
            Some(m) => m,
            None => {
                return Err(ChannelError::ModuleNotFound);
            },
        };
        match module.on_chan_open_init(
            connection_hops,
            self.channel.port_id.as_str(),
            self.channel.channel_id.as_str(),
            self.channel.counterparty_port_id.as_str(),
            version,
        ) {
            Ok(()) => Ok(()),
            Err(e) => Err(ChannelError::ModuleRejected { reason: e.reason }),
        }
    }

    /// The owning module accepts an opening that the counterparty started,
    /// and returns the version it agrees to use.
    pub fn chan_open_try(&mut self, connection_hops: &Vec<String>, counterparty_version: &str)
        -> (r: Result<String, ChannelError>)
        requires
            old(self).wf(),
        ensures
            final(self).wf(),
            old(self).channel().state != ChannelState::TryOpen ==> r == Err::<String, ChannelError>(
                ChannelError::WrongState,
            ),
            old(self).channel().state == ChannelState::TryOpen && !old(self).router_spec().route_ids().contains(
                old(self).channel().module_id@,
            ) ==> r == Err::<String, ChannelError>(ChannelError::ModuleNotFound),
            old(self).channel().state == ChannelState::TryOpen && old(self).router_spec().route_ids().contains(
                old(self).channel().module_id@,
            ) ==> r is Ok || r matches Err(ChannelError::ModuleRejected { .. }),
            r is Ok ==> old(self).channel().state == ChannelState::TryOpen,
            final(self).channel() == old(self).channel(),
            final(self).events() == old(self).events(),
            final(self).next_sequence() == old(self).next_sequence() && final(self).applied_writes() == old(self).applied_writes(),
            final(self).commitments() == old(self).commitments(),
            final(self).receipts() == old(self).receipts(),
            final(self).router_spec().route_ids() == old(self).router_spec().route_ids(),
    {
        if self.channel.state != ChannelState::TryOpen {
            return Err(ChannelError::WrongState);
        }
        let module = match self.router.get_route_mut(&self.channel.module_id) {
            Some(m) => m,
            None => {
                return Err(ChannelError::ModuleNotFound);
            },
        };
        match module.on_chan_open_try(
            connection_hops,
            self.channel.port_id.as_str(),
            self.channel.channel_id.as_str(),
            self.channel.counterparty_port_id.as_str(),
            counterparty_version,
        ) {
            Ok(v) => Ok(v),
            Err(e) => Err(ChannelError::ModuleRejected { reason: e.reason }),
        }
    }

    /// Completes the handshake on the end that started it: the counterparty
    /// answered with its channel identifier and version.
    pub fn chan_open_ack(&mut self, counterparty_channel_id: String, counterparty_version: &str)
        -> (r: Result<(), ChannelError>)
        requires
            old(self).wf(),
        ensures
            final(self).wf(),
            old(self).channel().state != ChannelState::Init ==> r == Err::<(), ChannelError>(
                ChannelError::WrongState,
            ),
            old(self).channel().state == ChannelState::Init && !old(self).router_spec().route_ids().contains(
                old(self).channel().module_id@,
            ) ==> r == Err::<(), ChannelError>(ChannelError::ModuleNotFound),
            old(self).channel().state == ChannelState::Init && old(self).router_spec().route_ids().contains(
                old(self).channel().module_id@,
            ) ==> r is Ok || r matches Err(ChannelError::ModuleRejected { .. }),
            r is Ok ==> {
                &&& old(self).channel().state == ChannelState::Init
                &&& final(self).channel() == (ChannelEnd {
                    state: ChannelState::Open,
                    counterparty_channel_id: Some(counterparty_channel_id),
                    ..old(self).channel()
                })
                &&& final(self).events() == old(self).events().push(Event::ChannelOpened)
            },
            r is Err ==> final(self).channel() == old(self).channel() && final(self).events() == old(self).events(),
            final(self).next_sequence() == old(self).next_sequence() && final(self).applied_writes() == old(self).applied_writes(),
            final(self).commitments() == old(self).commitments(),
            final(self).receipts() == old(self).receipts(),
            final(self).router_spec().route_ids() == old(self).router_spec().route_ids(),
    {
        if self.channel.state != ChannelState::Init {
            return Err(ChannelError::WrongState);
        }
        let module = match self.router.get_route_mut(&self.channel.module_id) {
            Some(m) => m,
            None => {
                return Err(ChannelError::ModuleNotFound);
            },
        };
        let answer = module.on_chan_open_ack(
            self.channel.port_id.as_str(),
            self.channel.channel_id.as_str(),
            counterparty_version,
        );
        self.finish_open_ack(counterparty_channel_id, answer)
    }

    /// Completes the handshake on the end that answered it.
    pub fn chan_open_confirm(&mut self) -> (r: Result<(), ChannelError>)
        requires
            old(self).wf(),
        ensures
            final(self).wf(),
            old(self).channel().state != ChannelState::TryOpen ==> r == Err::<(), ChannelError>(
                ChannelError::WrongState,
            ),
            old(self).channel().state == ChannelState::TryOpen && !old(self).router_spec().route_ids().contains(
                old(self).channel().module_id@,
            ) ==> r == Err::<(), ChannelError>(ChannelError::ModuleNotFound),
            old(self).channel().state == ChannelState::TryOpen && old(self).router_spec().route_ids().contains(
                old(self).channel().module_id@,
            ) ==> r is Ok || r matches Err(ChannelError::ModuleRejected { .. }),
            r is Ok ==> {
                &&& old(self).channel().state == ChannelState::TryOpen
                &&& final(self).channel() == (ChannelEnd { state: ChannelState::Open, ..old(self).channel() })
                &&& final(self).events() == old(self).events().push(Event::ChannelOpened)
            },
            r is Err ==> final(self).channel() == old(self).channel() && final(self).events() == old(self).events(),
            final(self).next_sequence() == old(self).next_sequence() && final(self).applied_writes() == old(self).applied_writes(),
            final(self).commitments() == old(self).commitments(),
            final(self).receipts() == old(self).receipts(),
            final(self).router_spec().route_ids() == old(self).router_spec().route_ids(),
    {
        if self.channel.state != ChannelState::TryOpen {
            return Err(ChannelError::WrongState);
        }
        let module = match self.router.get_route_mut(&self.channel.module_id) {
            Some(m) => m,
            None => {
                return Err(ChannelError::ModuleNotFound);
            },
        };
        let answer = module.on_chan_open_confirm(
            self.channel.port_id.as_str(),
            self.channel.channel_id.as_str(),
        );
        self.finish_open_confirm(answer)
    }

    /// Closes this open channel end, on its own initiative
    /// (`counterparty_closed` false) or because the counterparty closed.
    /// The module may refuse, for instance while packets are in flight.
    pub fn chan_close(&mut self, counterparty_closed: bool) -> (r: Result<(), ChannelError>)
        requires
            old(self).wf(),
        ensures
            final(self).wf(),
            old(self).channel().state != ChannelState::Open ==> r == Err::<(), ChannelError>(
                ChannelError::WrongState,
            ),
            old(self).channel().state == ChannelState::Open && !old(self).router_spec().route_ids().contains(
                old(self).channel().module_id@,
            ) ==> r == Err::<(), ChannelError>(ChannelError::ModuleNotFound),
            old(self).channel().state == ChannelState::Open && old(self).router_spec().route_ids().contains(
                old(self).channel().module_id@,
            ) ==> r is Ok || r matches Err(ChannelError::ModuleRejected { .. }),
            r is Ok ==> {
                &&& old(self).channel().state == ChannelState::Open
                &&& final(self).channel() == (ChannelEnd { state: ChannelState::Closed, ..old(self).channel() })
                &&& final(self).events() == old(self).events().push(Event::ChannelClosed)
            },
            r is Err ==> final(self).channel() == old(self).channel() && final(self).events() == old(self).events(),
            final(self).next_sequence() == old(self).next_sequence() && final(self).applied_writes() == old(self).applied_writes(),
            final(self).commitments() == old(self).commitments(),
            final(self).receipts() == old(self).receipts(),
            final(self).router_spec().route_ids() == old(self).router_spec().route_ids(),
    {
        if self.channel.state != ChannelState::Open {
            return Err(ChannelError::WrongState);
        }
        let module = match self.router.get_route_mut(&self.channel.module_id) {
            Some(m) => m,
            None => {
                return Err(ChannelError::ModuleNotFound);
            },
        };
        let port = self.channel.port_id.as_str();
        let chan = self.channel.channel_id.as_str();
        let accepted = if counterparty_closed {
            module.on_chan_close_confirm(port, chan)
        } else {
            module.on_chan_close_init(port, chan)
        };
        self.finish_close(accepted)
    }

    /// Completes an acknowledgement once the module has answered: on its
    /// acceptance the commitment is deleted and the event emitted; its
    /// refusal is reported with its reason and changes nothing.
    pub fn finish_acknowledgement(&mut self, sequence: u64, answer: Result<(), ModuleError>) -> (r:
        Result<(), PacketError>)
        requires
            old(self).wf(),
        ensures
            final(self).wf(),
            answer is Ok ==> {
                &&& r is Ok
                &&& final(self).commitments() == old(self).commitments().remove(sequence)
                &&& final(self).events() == old(self).events().push(Event::PacketAcknowledged { sequence })
                &&& final(self).channel() == old(self).channel()
                &&& final(self).next_sequence() == old(self).next_sequence() && final(self).applied_writes() == old(self).applied_writes()
                &&& final(self).receipts() == old(self).receipts()
                &&& final(self).router_spec() == old(self).router_spec()
            },
            answer matches Err(e) ==> r == Err::<(), PacketError>(
                PacketError::ModuleRejected { reason: e.reason },
            ) && *final(self) == *old(self),
    {
        match answer {
            Ok(()) => {
                self.commitments.remove(&sequence);
                self.events.push(Event::PacketAcknowledged { sequence });
                Ok(())
            },
            Err(e) => Err(PacketError::ModuleRejected { reason: e.reason }),
        }
    }

    /// Completes a timeout once the module has answered: on its acceptance
    /// the commitment is deleted and the event emitted; its refusal is
    /// reported with its reason and changes nothing.
    pub fn finish_timeout(&mut self, sequence: u64, answer: Result<(), ModuleError>) -> (r: Result<
        (),
        PacketError,
    >)
        requires
            old(self).wf(),
        ensures
            final(self).wf(),
            answer is Ok ==> {
                &&& r is Ok
                &&& final(self).commitments() == old(self).commitments().remove(sequence)
                &&& final(self).events() == old(self).events().push(Event::PacketTimedOut { sequence })
                &&& final(self).channel() == old(self).channel()
                &&& final(self).next_sequence() == old(self).next_sequence() && final(self).applied_writes() == old(self).applied_writes()
                &&& final(self).receipts() == old(self).receipts()
                &&& final(self).router_spec() == old(self).router_spec()
            },
            answer matches Err(e) ==> r == Err::<(), PacketError>(
                PacketError::ModuleRejected { reason: e.reason },
            ) && *final(self) == *old(self),
    {
        match answer {
            Ok(()) => {
                self.commitments.remove(&sequence);
                self.events.push(Event::PacketTimedOut { sequence });
                Ok(())
            },
            Err(e) => Err(PacketError::ModuleRejected { reason: e.reason }),
        }
    }

    /// Completes the opening on the end that started it once the module has
    /// answered the counterparty's reply.
    pub fn finish_open_ack(&mut self, counterparty_channel_id: String, answer: Result<(), ModuleError>)
        -> (r: Result<(), ChannelError>)
        requires
            old(self).wf(),
        ensures
            final(self).wf(),
            answer is Ok ==> {
                &&& r is Ok
                &&& final(self).channel() == (ChannelEnd {
                    state: ChannelState::Open,
                    counterparty_channel_id: Some(counterparty_channel_id),
                    ..old(self).channel()
                })
                &&& final(self).events() == old(self).events().push(Event::ChannelOpened)
                &&& final(self).next_sequence() == old(self).next_sequence() && final(self).applied_writes() == old(self).applied_writes()
                &&& final(self).commitments() == old(self).commitments()
                &&& final(self).receipts() == old(self).receipts()
                &&& final(self).router_spec() == old(self).router_spec()
            },
            answer matches Err(e) ==> r == Err::<(), ChannelError>(
                ChannelError::ModuleRejected { reason: e.reason },
            ) && *final(self) == *old(self),
    {
        match answer {
            Ok(()) => {
                self.channel.state = ChannelState::Open;
                self.channel.counterparty_channel_id = Some(counterparty_channel_id);
                self.events.push(Event::ChannelOpened);
                Ok(())
            },
            Err(e) => Err(ChannelError::ModuleRejected { reason: e.reason }),
        }
    }

    /// Completes the opening on the end that answered it once the module
    /// has answered.
    pub fn finish_open_confirm(&mut self, answer: Result<(), ModuleError>) -> (r: Result<
        (),
        ChannelError,
    >)
        requires
            old(self).wf(),
        ensures
            final(self).wf(),
            answer is Ok ==> {
                &&& r is Ok
                &&& final(self).channel() == (ChannelEnd { state: ChannelState::Open, ..old(self).channel() })
                &&& final(self).events() == old(self).events().push(Event::ChannelOpened)
                &&& final(self).next_sequence() == old(self).next_sequence() && final(self).applied_writes() == old(self).applied_writes()
                &&& final(self).commitments() == old(self).commitments()
                &&& final(self).receipts() == old(self).receipts()
                &&& final(self).router_spec() == old(self).router_spec()
            },
            answer matches Err(e) ==> r == Err::<(), ChannelError>(
                ChannelError::ModuleRejected { reason: e.reason },
            ) && *final(self) == *old(self),
    {
        match answer {
            Ok(()) => {
                self.channel.state = ChannelState::Open;
                self.events.push(Event::ChannelOpened);
                Ok(())
            },
            Err(e) => Err(ChannelError::ModuleRejected { reason: e.reason }),
        }
    }

    /// Completes the closing once the module has answered.
    pub fn finish_close(&mut self, answer: Result<(), ModuleError>) -> (r: Result<(), ChannelError>)
        requires
            old(self).wf(),
        ensures
            final(self).wf(),
            answer is Ok ==> {
                &&& r is Ok
                &&& final(self).channel() == (ChannelEnd { state: ChannelState::Closed, ..old(self).channel() })
                &&& final(self).events() == old(self).events().push(Event::ChannelClosed)
                &&& final(self).next_sequence() == old(self).next_sequence() && final(self).applied_writes() == old(self).applied_writes()
                &&& final(self).commitments() == old(self).commitments()
                &&& final(self).receipts() == old(self).receipts()
                &&& final(self).router_spec() == old(self).router_spec()
            },
            answer matches Err(e) ==> r == Err::<(), ChannelError>(
                ChannelError::ModuleRejected { reason: e.reason },
            ) && *final(self) == *old(self),
    {
        match answer {
            Ok(()) => {
                self.channel.state = ChannelState::Closed;
                self.events.push(Event::ChannelClosed);
                Ok(())
            },
            Err(e) => Err(ChannelError::ModuleRejected { reason: e.reason }),
        }
    }

    /// Sends `data` over the open channel under the next sequence, keeping a
    /// commitment for it until it is acknowledged or timed out.
    pub fn send_packet(&mut self, data: Vec<u8>, timeout_height: Height, timeout_timestamp: u64)
        -> (r: Result<u64, PacketError>)
        requires
            old(self).wf(),
        ensures
            final(self).wf(),
            old(self).channel().state != ChannelState::Open ==> r == Err::<u64, PacketError>(
                PacketError::ChannelNotOpen,
            ),
            old(self).channel().state == ChannelState::Open
                && old(self).channel().counterparty_channel_id is None ==> r == Err::<
                u64,
                PacketError,
            >(PacketError::MissingCounterparty),
            old(self).channel().state == ChannelState::Open
                && old(self).channel().counterparty_channel_id is Some && old(self).next_sequence()
                == u64::MAX ==> r == Err::<u64, PacketError>(PacketError::SequenceOverflow),
            old(self).channel().state == ChannelState::Open
                && old(self).channel().counterparty_channel_id is Some && old(self).next_sequence()
                < u64::MAX ==> r == Ok::<u64, PacketError>(old(self).next_sequence()),
            r is Err ==> *final(self) == *old(self),
            r matches Ok(seq) ==> {
                &&& old(self).channel().state == ChannelState::Open
                &&& seq == old(self).next_sequence()
                &&& final(self).next_sequence() == seq + 1
                &&& final(self).applied_writes() == old(self).applied_writes()
                &&& final(self).channel() == old(self).channel()
                &&& final(self).router_spec() == old(self).router_spec()
                &&& final(self).receipts() == old(self).receipts()
                &&& !old(self).commitments().contains_key(seq)
                &&& final(self).commitments().dom() == old(self).commitments().dom().insert(seq)
                &&& final(self).commitments()[seq].sequence == seq
                &&& final(self).commitments()[seq].data@ == data@
                &&& final(self).commitments()[seq].source_port@ == old(self).channel().port_id@
                &&& final(self).commitments()[seq].source_channel@ == old(self).channel().channel_id@
                &&& final(self).commitments()[seq].destination_port@ == old(self).channel().counterparty_port_id@
                &&& final(self).commitments()[seq].destination_channel@ == old(self).channel().counterparty_channel_id->Some_0@
                &&& final(self).commitments()[seq].timeout_height == timeout_height
                &&& final(self).commitments()[seq].timeout_timestamp == timeout_timestamp
                &&& forall|s: u64|
                    s != seq ==> #[trigger] final(self).commitments().contains_key(s) ==> final(self).commitments()[s] == old(self).commitments()[s]
                &&& final(self).events() == old(self).events().push(Event::PacketSent { sequence: seq })
            },
    {
        if self.channel.state != ChannelState::Open {
            return Err(PacketError::ChannelNotOpen);
        }
        let destination_channel = match &self.channel.counterparty_channel_id {
            Some(c) => c.clone(),
            None => {
                return Err(PacketError::MissingCounterparty);
            },
        };
        if self.next_sequence_send == u64::MAX {
            return Err(PacketError::SequenceOverflow);
        }
        let seq = self.next_sequence_send;
        let packet = Packet {
            source_port: self.channel.port_id.clone(),
            source_channel: self.channel.channel_id.clone(),
            destination_port: self.channel.counterparty_port_id.clone(),
            destination_channel,
            sequence: seq,
            data,
            timeout_height,
            timeout_timestamp,
        };
        self.commitments.insert(seq, packet);
        self.next_sequence_send = seq + 1;
        self.events.push(Event::PacketSent { sequence: seq });
        Ok(seq)
    }

    /// Receives `packet` on this, its destination end, at the host's height
    /// `host_height` and time `host_time`. A packet already received is not
    /// handed to the module again: the acknowledgement recorded for it is
    /// returned and nothing changes.
    pub fn recv_packet(&mut self, packet: &Packet, relayer: &str, host_height: &Height, host_time: u64)
        -> (r: Result<RecvResult, PacketError>)
        requires
            old(self).wf(),
        ensures
            final(self).wf(),
            old(self).channel().state != ChannelState::Open ==> r == Err::<RecvResult, PacketError>(
                PacketError::ChannelNotOpen,
            ),
            old(self).channel().state == ChannelState::Open && !old(self).is_destination_of(*packet)
                ==> r == Err::<RecvResult, PacketError>(PacketError::PortChannelMismatch),
            old(self).channel().state == ChannelState::Open && old(self).is_destination_of(*packet)
                && old(self).receipts().contains_key(packet.sequence) ==> {
                &&& r matches Ok(res) && !res.fresh && ack_view(res.ack) == old(self).receipts()[packet.sequence]
                &&& *final(self) == *old(self)
            },
            old(self).channel().state == ChannelState::Open && old(self).is_destination_of(*packet)
                && !old(self).receipts().contains_key(packet.sequence) && timed_out(
                packet.timeout_height,
                packet.timeout_timestamp,
                *host_height,
                host_time,
            ) ==> r == Err::<RecvResult, PacketError>(PacketError::PacketTimedOut),
            old(self).channel().state == ChannelState::Open && old(self).is_destination_of(*packet)
                && !old(self).receipts().contains_key(packet.sequence) && !timed_out(
                packet.timeout_height,
                packet.timeout_timestamp,
                *host_height,
                host_time,
            ) ==> if old(self).router_spec().route_ids().contains(old(self).channel().module_id@) {
                &&& r matches Ok(res) && res.fresh
                &&& final(self).receipts() == old(self).receipts().insert(
                    packet.sequence,
                    ack_view(r->Ok_0.ack),
                )
                &&& final(self).events() == old(self).events().push(
                    Event::PacketReceived { sequence: packet.sequence },
                )
                &&& final(self).applied_writes() == old(self).applied_writes() + write_log(
                    r->Ok_0.deferred_write,
                )
            } else {
                r == Err::<RecvResult, PacketError>(PacketError::ModuleNotFound)
            },
            r is Err ==> *final(self) == *old(self),
            final(self).channel() == old(self).channel(),
            final(self).next_sequence() == old(self).next_sequence(),
            final(self).commitments() == old(self).commitments(),
            final(self).router_spec().route_ids() == old(self).router_spec().route_ids(),
    {
        if self.channel.state != ChannelState::Open {
            return Err(PacketError::ChannelNotOpen);
        }
        if !(packet.destination_port == self.channel.port_id
            && packet.destination_channel == self.channel.channel_id) {
            return Err(PacketError::PortChannelMismatch);
        }
        match self.receipts.get(&packet.sequence) {
            Some(ack) => {
                return Ok(RecvResult { ack: clone_ack(ack), fresh: false, deferred_write: None });
            },
            None => {},
        }
        if packet.has_timed_out(host_height, host_time) {
            return Err(PacketError::PacketTimedOut);
        }
        let module = match self.router.get_route_mut(&self.channel.module_id) {
            Some(m) => m,
            None => {
                return Err(PacketError::ModuleNotFound);
            },
        };
        let outcome = module.on_recv_packet(packet, relayer);
        let result = RecvResult {
            ack: clone_ack(&outcome.ack),
            fresh: true,
            deferred_write: clone_ack(&outcome.deferred_write),
        };
        let ghost old_writes = self.applied_writes@;
        let ghost old_receipts = self.receipts@;
        self.receipts.insert(packet.sequence, outcome.ack);
        match outcome.deferred_write {
            Some(w) => {
                module.apply_deferred_write(&w);
                self.applied_writes.push(w);
            },
            None => {},
        }
        self.events.push(Event::PacketReceived { sequence: packet.sequence });
        proof {
            assert(self.applied_writes@.map_values(|w: Vec<u8>| w@) =~= old_writes.map_values(
                |w: Vec<u8>| w@,
            ) + write_log(result.deferred_write));
            assert(self.receipts@.map_values(|a: Option<Vec<u8>>| ack_view(a)) =~= old_receipts.map_values(
                |a: Option<Vec<u8>>| ack_view(a),
            ).insert(packet.sequence, ack_view(result.ack)));
        }
        Ok(result)
    }
    /// Processes the acknowledgement `ack` of `packet` on this, its source
    /// end: the module commits the send's effects and the commitment is
    /// deleted. A packet whose commitment is gone cannot be acknowledged.
    pub fn acknowledge_packet(&mut self, packet: &Packet, ack: &Vec<u8>, relayer: &str) -> (r:
        Result<(), PacketError>)
        requires
            old(self).wf(),
        ensures
            final(self).wf(),
            old(self).terminal_check(*packet) matches Some(e) ==> r == Err::<(), PacketError>(e),
            old(self).terminal_check(*packet) is None && !old(self).router_spec().route_ids().contains(
                old(self).channel().module_id@,
            ) ==> r == Err::<(), PacketError>(PacketError::ModuleNotFound),
            old(self).terminal_check(*packet) is None && old(self).router_spec().route_ids().contains(
                old(self).channel().module_id@,
            ) ==> r is Ok || r matches Err(PacketError::ModuleRejected { .. }),
            r matches Err(PacketError::ModuleRejected { .. }) ==> old(self).terminal_check(*packet) is None,
            r is Err && !(r matches Err(PacketError::ModuleRejected { .. })) ==> *final(self) == *old(self),
            r is Ok ==> {
                &&& old(self).terminal_check(*packet) is None
                &&& final(self).commitments() == old(self).commitments().remove(packet.sequence)
                &&& final(self).events() == old(self).events().push(
                    Event::PacketAcknowledged { sequence: packet.sequence },
                )
            },
            r is Err ==> final(self).commitments() == old(self).commitments() && final(self).events()
                == old(self).events(),
            final(self).channel() == old(self).channel(),
            final(self).next_sequence() == old(self).next_sequence() && final(self).applied_writes() == old(self).applied_writes(),
            final(self).receipts() == old(self).receipts(),
            final(self).router_spec().route_ids() == old(self).router_spec().route_ids(),
    {
        if !(packet.source_port == self.channel.port_id && packet.source_channel
            == self.channel.channel_id) {
            return Err(PacketError::PortChannelMismatch);
        }
        if !self.commitments.contains_key(&packet.sequence) {
            return Err(PacketError::PacketCommitmentNotFound);
        }
        let module = match self.router.get_route_mut(&self.channel.module_id) {
            Some(m) => m,
            None => {
                return Err(PacketError::ModuleNotFound);
            },
        };
        let answer = module.on_acknowledgement_packet(packet, ack, relayer);
        self.finish_acknowledgement(packet.sequence, answer)
    }

    /// Processes the timeout of `packet` on this, its source end, given what
    /// a proof of the destination's state at `proof_height` and
    /// `proof_time` shows: whether the destination received it. The module
    /// commits compensating effects and the commitment is deleted.
    pub fn timeout_packet(
        &mut self,
        packet: &Packet,
        relayer: &str,
        proof_height: &Height,
        proof_time: u64,
        received_on_destination: bool,
    ) -> (r: Result<(), PacketError>)
        requires
            old(self).wf(),
        ensures
            final(self).wf(),
            old(self).terminal_check(*packet) matches Some(e) ==> r == Err::<(), PacketError>(e),
            old(self).terminal_check(*packet) is None && received_on_destination ==> r == Err::<
                (),
                PacketError,
            >(PacketError::PacketAlreadyReceived),
            old(self).terminal_check(*packet) is None && !received_on_destination && !timed_out(
                packet.timeout_height,
                packet.timeout_timestamp,
                *proof_height,
                proof_time,
            ) ==> r == Err::<(), PacketError>(PacketError::TimeoutNotReached),
            old(self).terminal_check(*packet) is None && !received_on_destination && timed_out(
                packet.timeout_height,
                packet.timeout_timestamp,
                *proof_height,
                proof_time,
            ) && !old(self).router_spec().route_ids().contains(old(self).channel().module_id@) ==> r
                == Err::<(), PacketError>(PacketError::ModuleNotFound),
            old(self).terminal_check(*packet) is None && !received_on_destination && timed_out(
                packet.timeout_height,
                packet.timeout_timestamp,
                *proof_height,
                proof_time,
            ) && old(self).router_spec().route_ids().contains(old(self).channel().module_id@) ==> r is Ok
                || r matches Err(PacketError::ModuleRejected { .. }),
            r matches Err(PacketError::ModuleRejected { .. }) ==> old(self).terminal_check(*packet) is None,
            r is Err && !(r matches Err(PacketError::ModuleRejected { .. })) ==> *final(self) == *old(self),
            r is Ok ==> {
                &&& old(self).terminal_check(*packet) is None
                &&& !received_on_destination
                &&& timed_out(packet.timeout_height, packet.timeout_timestamp, *proof_height, proof_time)
                &&& final(self).commitments() == old(self).commitments().remove(packet.sequence)
                &&& final(self).events() == old(self).events().push(
                    Event::PacketTimedOut { sequence: packet.sequence },
                )
            },
            r is Err ==> final(self).commitments() == old(self).commitments() && final(self).events()
                == old(self).events(),
            final(self).channel() == old(self).channel(),
            final(self).next_sequence() == old(self).next_sequence() && final(self).applied_writes() == old(self).applied_writes(),
            final(self).receipts() == old(self).receipts(),
            final(self).router_spec().route_ids() == old(self).router_spec().route_ids(),
    {
        if !(packet.source_port == self.channel.port_id && packet.source_channel
            == self.channel.channel_id) {
            return Err(PacketError::PortChannelMismatch);
        }
        if !self.commitments.contains_key(&packet.sequence) {
            return Err(PacketError::PacketCommitmentNotFound);
        }
        if received_on_destination {
            return Err(PacketError::PacketAlreadyReceived);
        }
        if !packet.has_timed_out(proof_height, proof_time) {
            return Err(PacketError::TimeoutNotReached);
        }
        let module = match self.router.get_route_mut(&self.channel.module_id) {
            Some(m) => m,
            None => {
                return Err(PacketError::ModuleNotFound);
            },
        };
        let answer = module.on_timeout_packet(packet, relayer);
        self.finish_timeout(packet.sequence, answer)
    }
}

/// Acknowledged and timed out exclude each other: once an acknowledgement or
/// a timeout of a packet has deleted its commitment, every later
/// acknowledgement or timeout of it fails with `PacketCommitmentNotFound`.
pub proof fn lemma_terminal_states_exclusive<R: Router>(
    before: ChannelHandler<R>,
    after: ChannelHandler<R>,
    p: Packet,
)
    requires
        before.terminal_check(p) is None,
        after.channel() == before.channel(),
        after.commitments() == before.commitments().remove(p.sequence),
    ensures
        after.terminal_check(p) == Some(PacketError::PacketCommitmentNotFound),
{
}

} // verus!
