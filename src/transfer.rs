//! The token transfer message and its conversion to and from the raw form
//! that goes on the wire.

use vstd::prelude::*;
use crate::packet::Height;

verus! {

/// The key under which messages of this module are routed.
pub const ROUTER_KEY: &'static str = "ibc";

/// Type identifier of the transfer message on the wire.
pub const TYPE_URL: &'static str = "/ibc.applications.transfer.v1.MsgTransfer";

/// A character allowed in a port or channel identifier.
pub open spec fn is_id_char(c: char) -> bool {
    ('a' <= c <= 'z') || ('A' <= c <= 'Z') || ('0' <= c <= '9') || c == '.' || c == '_' || c == '+'
        || c == '-' || c == '#' || c == '[' || c == ']' || c == '<' || c == '>'
}

/// A port or channel identifier with between `min` and `max` characters.
pub open spec fn valid_identifier(s: Seq<char>, min: nat, max: nat) -> bool {
    min <= s.len() <= max && forall|i: int| 0 <= i < s.len() ==> is_id_char(#[trigger] s[i])
}

pub open spec fn valid_port_id(s: Seq<char>) -> bool {
    valid_identifier(s, 2, 128)
}

pub open spec fn valid_channel_id(s: Seq<char>) -> bool {
    valid_identifier(s, 8, 64)
}

/// A token amount: a non-empty run of decimal digits.
pub open spec fn valid_amount(s: Seq<char>) -> bool {
    s.len() > 0 && forall|i: int| 0 <= i < s.len() ==> '0' <= #[trigger] s[i] <= '9'
}

/// Whether `s` is a valid identifier between `min` and `max` characters long.
fn check_identifier(s: &str, min: usize, max: usize) -> (r: bool)
    requires
        min <= max < usize::MAX,
    ensures
        r == valid_identifier(s@, min as nat, max as nat),
{
    let mut ok: bool = true;
    let mut n: usize = 0;
    for c in it: s.chars()
        invariant
            max < usize::MAX,
            n == if it.index() <= max + 1 { it.index() as usize } else { (max + 1) as usize },
            ok <==> forall|j: int| 0 <= j < it.index() ==> is_id_char(#[trigger] it.seq()[j]),
    {
        let valid = ('a' <= c && c <= 'z') || ('A' <= c && c <= 'Z') || ('0' <= c && c <= '9')
            || c == '.' || c == '_' || c == '+' || c == '-' || c == '#' || c == '[' || c == ']'
            || c == '<' || c == '>';
        ok = ok && valid;
        if n <= max {
            n = n + 1;
        }
    }
    ok && min <= n && n <= max
}

/// Whether `s` is a valid amount.
fn check_amount(s: &str) -> (r: bool)
    ensures
        r == valid_amount(s@),
{
    let mut ok: bool = true;
    let mut nonempty: bool = false;
    for c in it: s.chars()
        invariant
            nonempty <==> it.index() > 0,
            ok <==> forall|j: int| 0 <= j < it.index() ==> '0' <= #[trigger] it.seq()[j] <= '9',
    {
        ok = ok && '0' <= c && c <= '9';
        nonempty = true;
    }
    ok && nonempty
}

/// An amount of one denomination, as the wire carries it.
#[derive(Clone, Debug, PartialEq, Eq)]
pub struct Coin {
    pub denom: String,
    pub amount: String,
}

/// The transfer message as it goes on the wire: every field may be
/// missing or malformed.
#[derive(Clone, Debug, PartialEq, Eq)]
pub struct RawMsgTransfer {
    pub source_port: String,
    pub source_channel: String,
    pub token: Option<Coin>,
    pub sender: String,
    pub receiver: String,
    pub timeout_height: Option<Height>,
    pub timeout_timestamp: u64,
}

/// A validated transfer message.
#[derive(Clone, Debug, PartialEq, Eq)]
pub struct MsgTransfer {
    /// the port on which the packet will be sent
    pub source_port: String,
    /// the channel by which the packet will be sent
    pub source_channel: String,
    /// the tokens to be transferred
    pub token: Coin,
    /// the sender address
    pub sender: String,
    /// the recipient address on the destination chain
    pub receiver: String,
    /// Timeout height; zero disables it.
    pub timeout_height: Height,
    /// Timeout timestamp in nanoseconds; zero disables it.
    pub timeout_timestamp: u64,
}

pub ghost struct CoinView {
    pub denom: Seq<char>,
    pub amount: Seq<char>,
}

pub ghost struct RawMsgTransferView {
    pub source_port: Seq<char>,
    pub source_channel: Seq<char>,
    pub token: Option<CoinView>,
    pub sender: Seq<char>,
    pub receiver: Seq<char>,
    pub timeout_height: Option<Height>,
    pub timeout_timestamp: u64,
}

pub ghost struct MsgTransferView {
    pub source_port: Seq<char>,
    pub source_channel: Seq<char>,
    pub token: CoinView,
    pub sender: Seq<char>,
    pub receiver: Seq<char>,
    pub timeout_height: Height,
    pub timeout_timestamp: u64,
}

impl View for Coin {
    type V = CoinView;

    open spec fn view(&self) -> CoinView {
        CoinView { denom: self.denom@, amount: self.amount@ }
    }
}

impl View for RawMsgTransfer {
    type V = RawMsgTransferView;

    open spec fn view(&self) -> RawMsgTransferView {
        RawMsgTransferView {
            source_port: self.source_port@,
            source_channel: self.source_channel@,
            token: match self.token {
                Some(c) => Some(c@),
                None => None,
            },
            sender: self.sender@,
            receiver: self.receiver@,
            timeout_height: self.timeout_height,
            timeout_timestamp: self.timeout_timestamp,
        }
    }
}

impl View for MsgTransfer {
    type V = MsgTransferView;

    open spec fn view(&self) -> MsgTransferView {
        MsgTransferView {
            source_port: self.source_port@,
            source_channel: self.source_channel@,
            token: self.token@,
            sender: self.sender@,
            receiver: self.receiver@,
            timeout_height: self.timeout_height,
            timeout_timestamp: self.timeout_timestamp,
        }
    }
}

/// Why a raw transfer message was refused.
#[derive(Clone, Copy, Debug, PartialEq, Eq, Structural)]
pub enum TransferError {
    InvalidPortId,
    InvalidChannelId,
    InvalidToken,
    InvalidDenom,
    InvalidAmount,
    InvalidSigner,
    UnknownMessageType,
    DecodeFailed,
}

/// A well-formed message: valid identifiers, a denomination, a decimal
/// amount and non-empty signers.
pub open spec fn valid_msg(m: MsgTransferView) -> bool {
    &&& valid_port_id(m.source_port)
    &&& valid_channel_id(m.source_channel)
    &&& m.token.denom.len() > 0
    &&& valid_amount(m.token.amount)
    &&& m.sender.len() > 0
    &&& m.receiver.len() > 0
}

/// The raw form of a message: a missing timeout height never arises.
pub open spec fn encode_view(m: MsgTransferView) -> RawMsgTransferView {
    RawMsgTransferView {
        source_port: m.source_port,
        source_channel: m.source_channel,
        token: Some(m.token),
        sender: m.sender,
        receiver: m.receiver,
        timeout_height: Some(m.timeout_height),
        timeout_timestamp: m.timeout_timestamp,
    }
}

/// The message that a raw form stands for, or the first check it fails.
/// A missing timeout height means zero: no height timeout.
pub open spec fn decode_view(r: RawMsgTransferView) -> Result<MsgTransferView, TransferError> {
    if r.token is None {
        Err(TransferError::InvalidToken)
    } else if r.token->Some_0.denom.len() == 0 {
        Err(TransferError::InvalidDenom)
    } else if !valid_amount(r.token->Some_0.amount) {
        Err(TransferError::InvalidAmount)
    } else if !valid_port_id(r.source_port) {
        Err(TransferError::InvalidPortId)
    } else if !valid_channel_id(r.source_channel) {
        Err(TransferError::InvalidChannelId)
    } else if r.sender.len() == 0 || r.receiver.len() == 0 {
        Err(TransferError::InvalidSigner)
    } else {
        Ok(
            MsgTransferView {
                source_port: r.source_port,
                source_channel: r.source_channel,
                token: r.token->Some_0,
                sender: r.sender,
                receiver: r.receiver,
                timeout_height: match r.timeout_height {
                    Some(h) => h,
                    None => Height { revision_number: 0, revision_height: 0 },
                },
                timeout_timestamp: r.timeout_timestamp,
            },
        )
    }
}

impl MsgTransfer {
    /// Validates a raw message.
    pub fn try_from_raw(raw: RawMsgTransfer) -> (r: Result<MsgTransfer, TransferError>)
        ensures
            r matches Ok(m) ==> decode_view(raw@) == Ok::<MsgTransferView, TransferError>(m@),
            r matches Err(e) ==> decode_view(raw@) == Err::<MsgTransferView, TransferError>(e),
    {
        let token = match raw.token {
            Some(t) => t,
            None => {
                return Err(TransferError::InvalidToken);
            },
        };
        if token.denom.as_str().is_empty() {
            return Err(TransferError::InvalidDenom);
        }
        if !check_amount(token.amount.as_str()) {
            return Err(TransferError::InvalidAmount);
        }
        if !check_identifier(raw.source_port.as_str(), 2, 128) {
            return Err(TransferError::InvalidPortId);
        }
        if !check_identifier(raw.source_channel.as_str(), 8, 64) {
            return Err(TransferError::InvalidChannelId);
        }
        if raw.sender.as_str().is_empty() || raw.receiver.as_str().is_empty() {
            return Err(TransferError::InvalidSigner);
        }
        let timeout_height = match raw.timeout_height {
            Some(h) => h,
            None => Height::zero(),
        };
        Ok(
            MsgTransfer {
                source_port: raw.source_port,
                source_channel: raw.source_channel,
                token,
                sender: raw.sender,
                receiver: raw.receiver,
                timeout_height,
                timeout_timestamp: raw.timeout_timestamp,
            },
        )
    }

    /// The raw form of this message.
    pub fn to_raw(self) -> (r: RawMsgTransfer)
        ensures
            r@ == encode_view(self@),
    {
        RawMsgTransfer {
            source_port: self.source_port,
            source_channel: self.source_channel,
            token: Some(self.token),
            sender: self.sender,
            receiver: self.receiver,
            timeout_height: Some(self.timeout_height),
            timeout_timestamp: self.timeout_timestamp,
        }
    }

    /// The key under which the message is routed.
    pub fn route(&self) -> (r: &'static str)
        ensures
            r@ == ROUTER_KEY@,
    {
        ROUTER_KEY
    }

    /// The type identifier of the message.
    pub fn type_url(&self) -> (r: &'static str)
        ensures
            r@ == TYPE_URL@,
    {
        TYPE_URL
    }
}

/// prost's `DecodeError`, returned by `Message::decode` and carried through
/// unread.
#[verifier::external_type_specification]
#[verifier::external_body]
pub struct ExDecodeError(prost::DecodeError);

/// The protobuf encoding of a raw transfer message with an empty memo.
pub uninterp spec fn wire_bytes(r: RawMsgTransferView) -> Seq<u8>;

/// The raw transfer message that protobuf bytes decode to, if they decode.
pub uninterp spec fn wire_decoded(b: Seq<u8>) -> Option<RawMsgTransferView>;

/// Relies on prost's `Message::encode_to_vec` for ibc-proto's
/// `MsgTransfer`: the encoding depends on the field values alone, and
/// `Message::decode` reads every field back as written (a present but empty
/// token or height is encoded as present).
#[verifier::external_body]
fn encode_raw(raw: RawMsgTransfer) -> (r: Vec<u8>)
    ensures
        r@ == wire_bytes(raw@),
        wire_decoded(r@) == Some(raw@),
{
    let msg = ibc_proto::ibc::applications::transfer::v1::MsgTransfer {
        source_port: raw.source_port,
        source_channel: raw.source_channel,
        token: raw.token.map(|c| ibc_proto::cosmos::base::v1beta1::Coin { denom: c.denom, amount: c.amount }),
        sender: raw.sender,
        receiver: raw.receiver,
        timeout_height: raw.timeout_height.map(|h| ibc_proto::ibc::core::client::v1::Height { revision_number: h.revision_number, revision_height: h.revision_height }),
        timeout_timestamp: raw.timeout_timestamp,
        memo: String::new(),
    };
    prost::Message::encode_to_vec(&msg)
}

/// Relies on prost's `Message::decode` for ibc-proto's `MsgTransfer`:
/// whether and to what the bytes decode depends on the bytes alone. The
/// memo is not kept.
#[verifier::external_body]
fn decode_raw(bytes: &[u8]) -> (r: Result<RawMsgTransfer, prost::DecodeError>)
    ensures
        r is Err <==> wire_decoded(bytes@) is None,
        r matches Ok(raw) ==> wire_decoded(bytes@) == Some(raw@),
{
    let msg = <ibc_proto::ibc::applications::transfer::v1::MsgTransfer as prost::Message>::decode(bytes)?;
    Ok(RawMsgTransfer {
        source_port: msg.source_port,
        source_channel: msg.source_channel,
        token: msg.token.map(|c| Coin { denom: c.denom, amount: c.amount }),
        sender: msg.sender,
        receiver: msg.receiver,
        timeout_height: msg.timeout_height.map(|h| Height { revision_number: h.revision_number, revision_height: h.revision_height }),
        timeout_timestamp: msg.timeout_timestamp,
    })
}

/// A message packed with its type identifier.
#[derive(Clone, Debug, PartialEq, Eq)]
pub struct Any {
    pub type_url: String,
    pub value: Vec<u8>,
}

/// The message that wire bytes stand for, or why they are refused.
pub open spec fn decode_bytes_view(b: Seq<u8>) -> Result<MsgTransferView, TransferError> {
    match wire_decoded(b) {
        Some(raw) => decode_view(raw),
        None => Err(TransferError::DecodeFailed),
    }
}

impl MsgTransfer {
    /// The protobuf encoding of this message.
    pub fn encode_vec(self) -> (r: Vec<u8>)
        ensures
            r@ == wire_bytes(encode_view(self@)),
            wire_decoded(r@) == Some(encode_view(self@)),
            valid_msg(self@) ==> decode_bytes_view(r@) == Ok::<MsgTransferView, TransferError>(self@),
    {
        proof {
            if valid_msg(self@) {
                lemma_raw_round_trip(self@);
            }
        }
        encode_raw(self.to_raw())
    }

    /// Decodes and validates a message from its protobuf encoding.
    pub fn decode_vec(bytes: &[u8]) -> (r: Result<MsgTransfer, TransferError>)
        ensures
            r matches Ok(m) ==> decode_bytes_view(bytes@) == Ok::<MsgTransferView, TransferError>(m@),
            r matches Err(e) ==> decode_bytes_view(bytes@) == Err::<MsgTransferView, TransferError>(e),
    {
        match decode_raw(bytes) {
            Ok(raw) => MsgTransfer::try_from_raw(raw),
            Err(_) => Err(TransferError::DecodeFailed),
        }
    }

    /// Packs this message with its type identifier.
    pub fn to_any(self) -> (r: Any)
        ensures
            r.type_url@ == TYPE_URL@,
            r.value@ == wire_bytes(encode_view(self@)),
            wire_decoded(r.value@) == Some(encode_view(self@)),
    {
        Any { type_url: TYPE_URL.to_owned(), value: self.encode_vec() }
    }

    /// Unpacks a message; the type identifier must be the transfer one.
    pub fn from_any(any: &Any) -> (r: Result<MsgTransfer, TransferError>)
        ensures
            any.type_url@ != TYPE_URL@ ==> r == Err::<MsgTransfer, TransferError>(
                TransferError::UnknownMessageType,
            ),
            any.type_url@ == TYPE_URL@ ==> {
                &&& r matches Ok(m) ==> decode_bytes_view(any.value@) == Ok::<
                    MsgTransferView,
                    TransferError,
                >(m@)
                &&& r matches Err(e) ==> decode_bytes_view(any.value@) == Err::<
                    MsgTransferView,
                    TransferError,
                >(e)
            },
    {
        if any.type_url != TYPE_URL.to_owned() {
            return Err(TransferError::UnknownMessageType);
        }
        MsgTransfer::decode_vec(any.value.as_slice())
    }
}

/// Validating the raw form of a valid message gives the message back, also
/// with the height timeout disabled (zero).
pub proof fn lemma_raw_round_trip(m: MsgTransferView)
    requires
        valid_msg(m),
    ensures
        decode_view(encode_view(m)) == Ok::<MsgTransferView, TransferError>(m),
{
}

} // verus!
