use ibc_core::chain::{ChannelEnd, ChannelError, ChannelHandler, Event};
use ibc_core::ids::ModuleId;
use ibc_core::packet::{ChannelState, Height};
use ibc_core::routing::{Module, ModuleError, ModuleRouter, ModuleRouterBuilder, RouterBuilder};

#[derive(Debug, Default)]
struct Picky {
    in_flight: bool,
}

impl Module for Picky {
    fn on_chan_open_try(
        &mut self,
        _connection_hops: &Vec<String>,
        _port_id: &str,
        _channel_id: &str,
        _counterparty_port_id: &str,
        counterparty_version: &str,
    ) -> Result<String, ModuleError> {
        if counterparty_version == "ics20-1" {
            Ok("ics20-1".to_string())
        } else {
            Err(ModuleError { reason: "unsupported version".to_string() })
        }
    }

    fn apply_deferred_write(&mut self, _write: &Vec<u8>) {}

    fn on_chan_close_init(&mut self, _port_id: &str, _channel_id: &str) -> Result<(), ModuleError> {
        if self.in_flight {
            Err(ModuleError { reason: "packets in flight".to_string() })
        } else {
            Ok(())
        }
    }
}

fn end(state: ChannelState, counterparty: Option<&str>, in_flight: bool) -> ChannelHandler<ModuleRouter<Picky>> {
    let id = ModuleId::new("transfer").unwrap();
    let router = ModuleRouterBuilder::new().add_route(id.clone(), Picky { in_flight }).unwrap().build();
    ChannelHandler::new(
        router,
        ChannelEnd {
            state,
            port_id: "transfer".to_string(),
            channel_id: "channel-0".to_string(),
            counterparty_port_id: "transfer".to_string(),
            counterparty_channel_id: counterparty.map(|c| c.to_string()),
            module_id: id,
        },
    )
}

#[test]
fn init_then_ack_opens_channel() {
    let mut a = end(ChannelState::Init, None, false);
    assert_eq!(a.chan_open_init(&vec!["connection-0".to_string()], "ics20-1"), Ok(()));
    assert_eq!(a.send_packet(vec![1], Height::zero(), 0).err().is_some(), true);
    assert_eq!(a.chan_open_ack("channel-1".to_string(), "ics20-1"), Ok(()));
    assert_eq!(a.channel_end().state, ChannelState::Open);
    assert_eq!(a.channel_end().counterparty_channel_id, Some("channel-1".to_string()));
    assert_eq!(a.emitted_events(), &vec![Event::ChannelOpened]);
    assert_eq!(a.send_packet(vec![1], Height::zero(), 0), Ok(1));
}

#[test]
fn try_returns_agreed_version() {
    let mut b = end(ChannelState::TryOpen, Some("channel-7"), false);
    assert_eq!(b.chan_open_try(&vec![], "ics20-1"), Ok("ics20-1".to_string()));
    assert_eq!(
        b.chan_open_try(&vec![], "ics20-9"),
        Err(ChannelError::ModuleRejected { reason: "unsupported version".to_string() })
    );
    assert_eq!(b.chan_open_confirm(), Ok(()));
    assert_eq!(b.channel_end().state, ChannelState::Open);
}

#[test]
fn handshake_steps_need_their_state() {
    let mut open = end(ChannelState::Open, Some("channel-1"), false);
    assert_eq!(open.chan_open_init(&vec![], "ics20-1"), Err(ChannelError::WrongState));
    assert_eq!(open.chan_open_try(&vec![], "ics20-1"), Err(ChannelError::WrongState));
    assert_eq!(open.chan_open_ack("channel-1".to_string(), "ics20-1"), Err(ChannelError::WrongState));
    assert_eq!(open.chan_open_confirm(), Err(ChannelError::WrongState));
    let mut init = end(ChannelState::Init, None, false);
    assert_eq!(init.chan_close(false), Err(ChannelError::WrongState));
}

#[test]
fn close_can_be_refused_by_module() {
    let mut busy = end(ChannelState::Open, Some("channel-1"), true);
    assert_eq!(
        busy.chan_close(false),
        Err(ChannelError::ModuleRejected { reason: "packets in flight".to_string() })
    );
    assert_eq!(busy.channel_end().state, ChannelState::Open);
    assert_eq!(busy.chan_close(true), Ok(()));
    assert_eq!(busy.channel_end().state, ChannelState::Closed);
    assert_eq!(busy.emitted_events(), &vec![Event::ChannelClosed]);
}

#[test]
fn handshake_without_module_fails() {
    let router = ModuleRouterBuilder::<Picky>::new().build();
    let mut a = ChannelHandler::new(
        router,
        ChannelEnd {
            state: ChannelState::Init,
            port_id: "transfer".to_string(),
            channel_id: "channel-0".to_string(),
            counterparty_port_id: "transfer".to_string(),
            counterparty_channel_id: None,
            module_id: ModuleId::new("transfer").unwrap(),
        },
    );
    assert_eq!(a.chan_open_init(&vec![], "ics20-1"), Err(ChannelError::ModuleNotFound));
}

#[test]
fn finishing_handshake_follows_module_answer() {
    let mut a = end(ChannelState::Init, None, false);
    let no = || Err(ModuleError { reason: "no".to_string() });
    assert_eq!(
        a.finish_open_ack("channel-1".to_string(), no()),
        Err(ChannelError::ModuleRejected { reason: "no".to_string() })
    );
    assert_eq!(a.channel_end().state, ChannelState::Init);
    assert_eq!(a.finish_open_ack("channel-1".to_string(), Ok(())), Ok(()));
    assert_eq!(a.channel_end().counterparty_channel_id, Some("channel-1".to_string()));
    assert_eq!(a.finish_close(no()), Err(ChannelError::ModuleRejected { reason: "no".to_string() }));
    assert_eq!(a.finish_close(Ok(())), Ok(()));
    assert_eq!(a.channel_end().state, ChannelState::Closed);
    let mut b = end(ChannelState::TryOpen, Some("channel-3"), false);
    assert_eq!(b.finish_open_confirm(no()), Err(ChannelError::ModuleRejected { reason: "no".to_string() }));
    assert_eq!(b.finish_open_confirm(Ok(())), Ok(()));
    assert_eq!(b.channel_end().state, ChannelState::Open);
    assert_eq!(b.emitted_events(), &vec![Event::ChannelOpened]);
}
