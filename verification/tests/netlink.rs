use cansentinel::monitoring::netlink::{
    link_event, link_state, state_event, update_event, LinkUpdate, NetlinkAction, NetlinkOutcome,
    WatchList, ARPHRD_CAN,
};
use cansentinel::{
    monitor_netlink, BusEvent, BusEventSource, BusEventType, CanInterfaceInfo, CanState,
};

const IFLA_INFO_KIND: u16 = 1;
const IFLA_INFO_DATA: u16 = 2;
const IFLA_CAN_STATE: u16 = 4;
const IFLA_CAN_RESTART_MS: u16 = 6;

/// One netlink attribute in the byte order of this machine, padded to four
/// bytes.
fn attribute(kind: u16, payload: &[u8]) -> Vec<u8> {
    let mut bytes = ((4 + payload.len()) as u16).to_ne_bytes().to_vec();
    bytes.extend_from_slice(&kind.to_ne_bytes());
    bytes.extend_from_slice(payload);
    while bytes.len() % 4 != 0 {
        bytes.push(0);
    }
    bytes
}

/// The link info of a CAN device whose controller is in the state with this
/// number.
fn can_link_info(state: u32) -> Vec<u8> {
    let mut data = attribute(IFLA_CAN_RESTART_MS, &100u32.to_ne_bytes());
    data.extend(attribute(IFLA_CAN_STATE, &state.to_ne_bytes()));
    let mut info = attribute(IFLA_INFO_KIND, b"can\0");
    info.extend(attribute(IFLA_INFO_DATA, &data));
    info
}

fn interface(idx: u32, name: &str) -> CanInterfaceInfo {
    CanInterfaceInfo { idx, name: name.to_string() }
}

fn update(hardware_type: u16, index: i32, name: Option<&str>, state: Option<u32>) -> LinkUpdate {
    LinkUpdate {
        hardware_type,
        index,
        name: name.map(|n| n.to_string()),
        link_info: state.map(can_link_info),
    }
}

#[test]
fn can_hardware_type_is_280() {
    assert_eq!(ARPHRD_CAN, 280);
}

#[test]
fn watch_list_holds_exactly_the_given_indices() {
    let watch = WatchList::only(&vec![
        interface(9, "can3"),
        interface(3, "can0"),
        interface(4, "can1"),
        interface(3, "can0"),
        interface(7, "can2"),
    ]);
    for idx in [3, 4, 7, 9] {
        assert!(watch.contains(idx), "{idx}");
    }
    for idx in [0, 1, 2, 5, 6, 8, 10, u32::MAX] {
        assert!(!watch.contains(idx), "{idx}");
    }
}

#[test]
fn empty_watch_list_holds_nothing() {
    let watch = WatchList::only(&Vec::new());
    assert!(!watch.contains(0));
    assert!(!watch.contains(3));
}

#[test]
fn watch_list_of_many_indices_finds_each() {
    let interfaces: Vec<CanInterfaceInfo> =
        (0..200u32).rev().map(|k| interface(3 * k + 1, "can")).collect();
    let watch = WatchList::only(&interfaces);
    for k in 0..200u32 {
        assert!(watch.contains(3 * k + 1));
        assert!(!watch.contains(3 * k));
        assert!(!watch.contains(3 * k + 2));
    }
}

#[test]
fn watching_all_holds_every_index() {
    let watch = WatchList::all();
    for idx in [0, 1, 3, 4000, u32::MAX] {
        assert!(watch.contains(idx));
    }
}

#[test]
fn link_info_holds_the_controller_state() {
    assert_eq!(link_state(&Some(can_link_info(0))), Some(CanState::ErrorActive));
    assert_eq!(link_state(&Some(can_link_info(1))), Some(CanState::ErrorWarning));
    assert_eq!(link_state(&Some(can_link_info(2))), Some(CanState::ErrorPassive));
    assert_eq!(link_state(&Some(can_link_info(3))), Some(CanState::BusOff));
    assert_eq!(link_state(&Some(can_link_info(4))), Some(CanState::Stopped));
    assert_eq!(link_state(&Some(can_link_info(5))), Some(CanState::Sleeping));
}

#[test]
fn link_info_without_a_readable_state_reports_none() {
    assert_eq!(link_state(&None), None);
    assert_eq!(link_state(&Some(Vec::new())), None);
    assert_eq!(link_state(&Some(can_link_info(6))), None);
    assert_eq!(link_state(&Some(attribute(IFLA_INFO_KIND, b"vcan\0"))), None);
    let mut cut = can_link_info(3);
    cut.truncate(cut.len() - 2);
    assert_eq!(link_state(&Some(cut)), None);
    assert_eq!(link_state(&Some(vec![0xFF; 7])), None);
}

#[test]
fn states_map_to_events_as_documented() {
    let table = [
        (Some(CanState::ErrorActive), None),
        (Some(CanState::ErrorWarning), None),
        (Some(CanState::ErrorPassive), None),
        (Some(CanState::BusOff), Some(BusEventType::BusOff)),
        (Some(CanState::Stopped), Some(BusEventType::Stopped)),
        (Some(CanState::Sleeping), None),
        (None, None),
    ];
    for (state, expected) in table {
        let event = state_event(interface(3, "can0"), state);
        assert_eq!(event.as_ref().map(|e| e.event_type), expected, "{state:?}");
        if let Some(event) = event {
            assert_eq!(event.interface.idx, 3);
            assert_eq!(event.interface.name, "can0");
            assert_eq!(event.event_source, BusEventSource::StateUpdate(state.unwrap()));
        }
    }
}

#[test]
fn only_watched_can_devices_are_accepted() {
    let watch = WatchList::only(&vec![interface(3, "can0"), interface(4, "can1")]);
    assert!(watch.accepts(&update(280, 3, Some("can0"), None)));
    assert!(watch.accepts(&update(280, 4, None, Some(3))));
    assert!(!watch.accepts(&update(280, 5, Some("can2"), Some(3))));
    assert!(!watch.accepts(&update(279, 3, Some("can0"), Some(3))));
    assert!(!watch.accepts(&update(1, 3, Some("eth0"), Some(3))));
    assert!(WatchList::all().accepts(&update(280, 77, None, None)));
    assert!(!WatchList::all().accepts(&update(281, 77, None, None)));
}

#[test]
fn update_with_given_state_means_the_event_of_that_state() {
    let event = update_event(update(280, 3, Some("can0"), None), Some(CanState::BusOff)).unwrap();
    assert_eq!(event.event_type, BusEventType::BusOff);
    assert_eq!(event.interface.idx, 3);
    assert_eq!(event.interface.name, "can0");
    assert_eq!(event.event_source, BusEventSource::StateUpdate(CanState::BusOff));

    let event = update_event(update(280, 9, None, None), Some(CanState::Stopped)).unwrap();
    assert_eq!(event.event_type, BusEventType::Stopped);
    assert_eq!(event.interface.idx, 9);
    assert_eq!(event.interface.name, "Unknown");
    assert_eq!(event.event_source, BusEventSource::StateUpdate(CanState::Stopped));

    for state in [
        None,
        Some(CanState::ErrorActive),
        Some(CanState::ErrorWarning),
        Some(CanState::ErrorPassive),
        Some(CanState::Sleeping),
    ] {
        assert!(update_event(update(280, 3, Some("can0"), Some(3)), state).is_none(), "{state:?}");
    }
}

#[test]
fn bus_off_update_of_watched_can_device_is_an_event() {
    let watch = WatchList::only(&vec![interface(3, "can0"), interface(4, "can1")]);
    let event = link_event(&watch, update(280, 3, Some("can0"), Some(3))).expect("bus-off");
    assert_eq!(event.event_type, BusEventType::BusOff);
    assert_eq!(event.interface.idx, 3);
    assert_eq!(event.interface.name, "can0");
    assert_eq!(event.event_source, BusEventSource::StateUpdate(CanState::BusOff));
}

#[test]
fn stopped_update_of_watched_can_device_is_an_event() {
    let watch = WatchList::only(&vec![interface(3, "can0"), interface(4, "can1")]);
    let event = link_event(&watch, update(280, 4, Some("can1"), Some(4))).expect("stopped");
    assert_eq!(event.event_type, BusEventType::Stopped);
    assert_eq!(event.interface.idx, 4);
    assert_eq!(event.interface.name, "can1");
    assert_eq!(event.event_source, BusEventSource::StateUpdate(CanState::Stopped));
}

#[test]
fn link_updates_never_yield_a_restart() {
    let watch = WatchList::all();
    for state in 0..8 {
        let event = link_event(&watch, update(280, 3, Some("can0"), Some(state)));
        let expected = match state {
            3 => Some(BusEventType::BusOff),
            4 => Some(BusEventType::Stopped),
            _ => None,
        };
        assert_eq!(event.map(|e| e.event_type), expected, "state {state}");
    }
    assert!(link_event(&watch, update(280, 3, Some("can0"), None)).is_none());
}

#[test]
fn other_hardware_types_never_yield_an_event() {
    let watch = WatchList::all();
    for hardware_type in [0u16, 1, 279, 281, 772, u16::MAX] {
        for state in 0..6 {
            let event = link_event(&watch, update(hardware_type, 3, Some("can0"), Some(state)));
            assert!(event.is_none(), "type {hardware_type}, state {state}");
        }
    }
}

#[test]
fn unwatched_index_yields_no_event() {
    let watch = WatchList::only(&vec![interface(3, "can0")]);
    assert!(link_event(&watch, update(280, 4, Some("can1"), Some(3))).is_none());
    assert!(link_event(&watch, update(280, 3, Some("can0"), Some(3))).is_some());
}

#[test]
fn update_without_name_is_called_unknown() {
    let event = link_event(&WatchList::all(), update(280, 5, None, Some(3))).expect("bus-off");
    assert_eq!(event.interface.name, "Unknown");
    assert_eq!(event.interface.idx, 5);
}

#[test]
fn negative_index_is_read_without_its_sign() {
    let event = link_event(&WatchList::all(), update(280, -1, Some("odd"), Some(3))).unwrap();
    assert_eq!(event.interface.idx, u32::MAX);
    let event = link_event(&WatchList::all(), update(280, i32::MIN, Some("odd"), Some(4))).unwrap();
    assert_eq!(event.interface.idx, 0x8000_0000);
    let watch = WatchList::only(&vec![interface(u32::MAX, "odd")]);
    assert!(link_event(&watch, update(280, -1, Some("odd"), Some(3))).is_some());
    assert!(link_event(&watch, update(280, -2, Some("odd"), Some(3))).is_none());
}

fn bus_off_event() -> BusEvent {
    BusEvent::bus_off(interface(3, "can0"), BusEventSource::StateUpdate(CanState::BusOff))
}

#[test]
fn failed_subscription_ends_monitoring() {
    assert!(matches!(
        monitor_netlink(NetlinkAction::Connect, NetlinkOutcome::ConnectFailed),
        NetlinkAction::Stop
    ));
}

#[test]
fn open_subscription_starts_receiving() {
    assert!(matches!(
        monitor_netlink(NetlinkAction::Connect, NetlinkOutcome::Connected),
        NetlinkAction::Receive
    ));
}

#[test]
fn update_with_event_is_sent_and_without_is_skipped() {
    match monitor_netlink(NetlinkAction::Receive, NetlinkOutcome::Update(Some(bus_off_event()))) {
        NetlinkAction::Emit(event) => {
            assert_eq!(event.event_type, BusEventType::BusOff);
            assert_eq!(event.interface.idx, 3);
        }
        other => panic!("expected an event, got {other:?}"),
    }
    assert!(matches!(
        monitor_netlink(NetlinkAction::Receive, NetlinkOutcome::Update(None)),
        NetlinkAction::Receive
    ));
}

#[test]
fn malformed_message_is_skipped() {
    assert!(matches!(
        monitor_netlink(NetlinkAction::Receive, NetlinkOutcome::Malformed),
        NetlinkAction::Receive
    ));
}

#[test]
fn failed_receive_ends_monitoring() {
    assert!(matches!(
        monitor_netlink(NetlinkAction::Receive, NetlinkOutcome::ReceiveFailed),
        NetlinkAction::Stop
    ));
}

#[test]
fn delivered_event_receives_again_and_closed_channel_stops() {
    assert!(matches!(
        monitor_netlink(NetlinkAction::Emit(bus_off_event()), NetlinkOutcome::Delivered),
        NetlinkAction::Receive
    ));
    assert!(matches!(
        monitor_netlink(NetlinkAction::Emit(bus_off_event()), NetlinkOutcome::ChannelClosed),
        NetlinkAction::Stop
    ));
}

#[test]
fn link_monitor_ignores_outcomes_that_answer_nothing() {
    assert!(matches!(
        monitor_netlink(NetlinkAction::Connect, NetlinkOutcome::Delivered),
        NetlinkAction::Connect
    ));
    assert!(matches!(
        monitor_netlink(NetlinkAction::Receive, NetlinkOutcome::Connected),
        NetlinkAction::Receive
    ));
    assert!(matches!(
        monitor_netlink(NetlinkAction::Stop, NetlinkOutcome::Connected),
        NetlinkAction::Stop
    ));
    assert!(matches!(
        monitor_netlink(NetlinkAction::Emit(bus_off_event()), NetlinkOutcome::Malformed),
        NetlinkAction::Emit(_)
    ));
}

#[test]
fn whole_run_of_the_link_monitor() {
    let watch = WatchList::only(&vec![interface(3, "can0"), interface(4, "can1")]);
    let mut action = monitor_netlink(NetlinkAction::Connect, NetlinkOutcome::Connected);
    let mut sent = Vec::new();
    let updates = vec![
        update(1, 2, Some("eth0"), None),
        update(280, 3, Some("can0"), Some(1)),
        update(280, 3, Some("can0"), Some(3)),
        update(280, 5, Some("can2"), Some(3)),
        update(280, 4, Some("can1"), Some(4)),
        update(280, 3, Some("can0"), Some(0)),
    ];
    for u in updates {
        assert!(matches!(action, NetlinkAction::Receive));
        action = monitor_netlink(action, NetlinkOutcome::Update(link_event(&watch, u)));
        if let NetlinkAction::Emit(event) = &action {
            sent.push((event.interface.idx, event.event_type));
            action = monitor_netlink(action, NetlinkOutcome::Delivered);
        }
    }
    assert_eq!(sent, vec![(3, BusEventType::BusOff), (4, BusEventType::Stopped)]);
    action = monitor_netlink(action, NetlinkOutcome::ReceiveFailed);
    assert!(matches!(action, NetlinkAction::Stop));
}
