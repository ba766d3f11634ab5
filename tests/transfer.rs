use ibc_core::packet::Height;
use ibc_core::transfer::{Any, Coin, MsgTransfer, RawMsgTransfer, TransferError, TYPE_URL};

fn sample(timeout_height: Height, timeout_timestamp: u64) -> MsgTransfer {
    MsgTransfer {
        source_port: "transfer".to_string(),
        source_channel: "channel-0".to_string(),
        token: Coin { denom: "uatom".to_string(), amount: "10".to_string() },
        sender: "cosmos1sender".to_string(),
        receiver: "cosmos1receiver".to_string(),
        timeout_height,
        timeout_timestamp,
    }
}

#[test]
fn raw_round_trip_with_disabled_height() {
    let m = sample(Height::zero(), 1_700_000_000_000_000_000);
    let raw = m.clone().to_raw();
    assert_eq!(raw.timeout_height, Some(Height::zero()));
    assert_eq!(MsgTransfer::try_from_raw(raw), Ok(m));
}

#[test]
fn bytes_round_trip_with_disabled_height() {
    let m = sample(Height::zero(), 1_700_000_000_000_000_000);
    let bytes = m.clone().encode_vec();
    assert!(!bytes.is_empty());
    assert_eq!(MsgTransfer::decode_vec(&bytes), Ok(m));
}

#[test]
fn bytes_round_trip_with_height() {
    let m = sample(Height { revision_number: 1, revision_height: 42 }, 0);
    let bytes = m.clone().encode_vec();
    assert_eq!(MsgTransfer::decode_vec(&bytes), Ok(m));
}

#[test]
fn any_round_trip() {
    let m = sample(Height { revision_number: 0, revision_height: 7 }, 5);
    assert_eq!(m.type_url(), "/ibc.applications.transfer.v1.MsgTransfer");
    assert_eq!(m.route(), "ibc");
    let any = m.clone().to_any();
    assert_eq!(any.type_url, TYPE_URL);
    assert_eq!(MsgTransfer::from_any(&any), Ok(m));
}

#[test]
fn any_with_other_type_is_refused() {
    let m = sample(Height::zero(), 5);
    let mut any = m.to_any();
    any.type_url = "/ibc.core.channel.v1.MsgRecvPacket".to_string();
    assert_eq!(MsgTransfer::from_any(&any), Err(TransferError::UnknownMessageType));
}

#[test]
fn garbage_bytes_are_refused() {
    let any = Any { type_url: TYPE_URL.to_string(), value: vec![0xff, 0xff, 0xff] };
    assert_eq!(MsgTransfer::from_any(&any), Err(TransferError::DecodeFailed));
}

#[test]
fn missing_height_decodes_as_zero() {
    let mut raw = sample(Height::zero(), 5).to_raw();
    raw.timeout_height = None;
    assert_eq!(MsgTransfer::try_from_raw(raw).unwrap().timeout_height, Height::zero());
}

fn raw_with(f: impl Fn(&mut RawMsgTransfer)) -> RawMsgTransfer {
    let mut raw = sample(Height::zero(), 5).to_raw();
    f(&mut raw);
    raw
}

#[test]
fn invalid_fields_are_refused() {
    let cases: Vec<(RawMsgTransfer, TransferError)> = vec![
        (raw_with(|r| r.token = None), TransferError::InvalidToken),
        (raw_with(|r| r.token.as_mut().unwrap().denom = String::new()), TransferError::InvalidDenom),
        (raw_with(|r| r.token.as_mut().unwrap().amount = "1x".to_string()), TransferError::InvalidAmount),
        (raw_with(|r| r.token.as_mut().unwrap().amount = String::new()), TransferError::InvalidAmount),
        (raw_with(|r| r.source_port = "t".to_string()), TransferError::InvalidPortId),
        (raw_with(|r| r.source_port = "trans fer".to_string()), TransferError::InvalidPortId),
        (raw_with(|r| r.source_port = "p".repeat(129)), TransferError::InvalidPortId),
        (raw_with(|r| r.source_channel = "chan-0".to_string()), TransferError::InvalidChannelId),
        (raw_with(|r| r.source_channel = "c".repeat(65)), TransferError::InvalidChannelId),
        (raw_with(|r| r.sender = String::new()), TransferError::InvalidSigner),
        (raw_with(|r| r.receiver = String::new()), TransferError::InvalidSigner),
    ];
    for (raw, err) in cases {
        assert_eq!(MsgTransfer::try_from_raw(raw), Err(err));
    }
}

#[test]
fn identifier_length_bounds_are_inclusive() {
    assert!(MsgTransfer::try_from_raw(raw_with(|r| r.source_port = "p".repeat(128))).is_ok());
    assert!(MsgTransfer::try_from_raw(raw_with(|r| r.source_port = "pt".to_string())).is_ok());
    assert!(MsgTransfer::try_from_raw(raw_with(|r| r.source_channel = "channel8".to_string())).is_ok());
    assert!(MsgTransfer::try_from_raw(raw_with(|r| r.source_channel = "c".repeat(64))).is_ok());
}
