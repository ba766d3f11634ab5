use ibc_core::ids::{InvalidModuleId, ModuleId};
use ibc_core::packet::Packet;
use ibc_core::routing::{Module, ModuleError, ModuleRouterBuilder, RecvOutcome, Router, RouterBuilder};

#[derive(Debug, Default)]
struct Counter {
    writes: u64,
}

impl Module for Counter {
    fn on_chan_open_try(
        &mut self,
        _connection_hops: &Vec<String>,
        _port_id: &str,
        _channel_id: &str,
        _counterparty_port_id: &str,
        counterparty_version: &str,
    ) -> Result<String, ModuleError> {
        Ok(counterparty_version.to_string())
    }

    fn on_recv_packet(&self, _packet: &Packet, _relayer: &str) -> RecvOutcome {
        RecvOutcome { ack: Some(vec![1]), deferred_write: Some(vec![2]) }
    }

    fn apply_deferred_write(&mut self, _write: &Vec<u8>) {
        self.writes += 1;
    }
}

#[test]
fn module_id_accepts_alphanumeric() {
    let id = ModuleId::new("transfer").unwrap();
    assert_eq!(id.as_str(), "transfer");
    assert!(ModuleId::new("ics20Transfer2").is_ok());
    assert!(ModuleId::new("modülé").is_ok());
    let parsed: ModuleId = "transfer".parse().unwrap();
    assert_eq!(parsed, id);
    assert_eq!(parsed.to_string(), "transfer".to_string());
    assert!("bad id".parse::<ModuleId>().is_err());
}

#[test]
fn module_id_rejects_invalid() {
    assert_eq!(ModuleId::new(""), Err(InvalidModuleId));
    assert_eq!(ModuleId::new("   "), Err(InvalidModuleId));
    assert_eq!(ModuleId::new("trans fer"), Err(InvalidModuleId));
    assert_eq!(ModuleId::new("trans-fer"), Err(InvalidModuleId));
    assert_eq!(ModuleId::new(" transfer"), Err(InvalidModuleId));
}

#[test]
fn module_ids_are_ordered() {
    let a = ModuleId::new("alpha").unwrap();
    let b = ModuleId::new("beta").unwrap();
    assert!(a < b);
    assert_eq!(a.clone(), a);
}

#[test]
fn builder_rejects_duplicate_route() {
    let id = ModuleId::new("transfer").unwrap();
    let builder = ModuleRouterBuilder::<Counter>::new()
        .add_route(id.clone(), Counter::default())
        .unwrap();
    let err = builder.add_route(id.clone(), Counter::default()).err().unwrap();
    assert_eq!(err.module_id, id);
}

#[test]
fn router_finds_registered_modules() {
    let transfer = ModuleId::new("transfer").unwrap();
    let other = ModuleId::new("other").unwrap();
    let missing = ModuleId::new("missing").unwrap();
    let mut router = ModuleRouterBuilder::<Counter>::new()
        .add_route(transfer.clone(), Counter::default())
        .unwrap()
        .add_route(other.clone(), Counter { writes: 5 })
        .unwrap()
        .build();
    assert!(router.has_route(&transfer));
    assert!(router.has_route(&other));
    assert!(!router.has_route(&missing));
    assert!(router.get_route_mut(&missing).is_none());
    router.get_route_mut(&transfer).unwrap().writes = 3;
    assert_eq!(router.get_route(&transfer).unwrap().writes, 3);
    assert_eq!(router.get_route(&other).unwrap().writes, 5);
}

#[test]
fn default_callbacks_accept() {
    let mut m = Counter::default();
    assert!(m.on_chan_open_init(&vec![], "transfer", "channel-0", "transfer", "ics20-1").is_ok());
    assert_eq!(
        m.on_chan_open_try(&vec![], "transfer", "channel-0", "transfer", "ics20-1").unwrap(),
        "ics20-1"
    );
    assert!(m.on_chan_open_ack("transfer", "channel-0", "ics20-1").is_ok());
    assert!(m.on_chan_open_confirm("transfer", "channel-0").is_ok());
    assert!(m.on_chan_close_init("transfer", "channel-0").is_ok());
    assert!(m.on_chan_close_confirm("transfer", "channel-0").is_ok());
}
