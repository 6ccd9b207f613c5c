use matter_stack::error::ErrorCode;
use matter_stack::wireless::gatt::{
    BtpAction, BtpEvent, GattAction, GattEvent, RunBtp, RunGattWhileBleCommissionable,
};
use matter_stack::wireless::net_ctl::{
    Connect, NetCtlError, NetCtlState, NetworkCommissioningStatus, NetworkType, WirelessNetCtl,
};
use matter_stack::wireless::wifi::{RunWifi, WifiAction, WifiEvent};
use matter_stack::wireless::window::{
    wait_comm_window, CommWindowOpener, CommWindowState, CommWindowWait, NextCommWindowAction,
    WaitNextCommWindow,
};
use matter_stack::wireless::{
    PreexistingWireless, WirelessBle, WirelessMatterStack, MAX_WIRELESS_NETWORKS,
};

const CLOSED: CommWindowState = CommWindowState::Closed;
const OWN: CommWindowState = CommWindowState::Open { opener: None };
const CASE: CommWindowState =
    CommWindowState::Open { opener: Some(CommWindowOpener { fab_idx: 1, vendor_id: 0xFFF1 }) };

#[test]
fn window_states() {
    assert!(!CLOSED.is_open() && !CLOSED.is_open_on_all_transports());
    assert!(OWN.is_open() && OWN.is_open_on_all_transports());
    assert!(CASE.is_open() && !CASE.is_open_on_all_transports());
}

#[test]
fn window_is_polled_until_it_is_accepted() {
    assert_eq!(wait_comm_window(CommWindowState::is_open, CLOSED), CommWindowWait::PollAfter(2));
    assert_eq!(wait_comm_window(CommWindowState::is_open, CASE), CommWindowWait::Done(CASE));
}

#[test]
fn window_that_is_open_on_entry_does_not_count() {
    let mut wait = WaitNextCommWindow::new();
    assert_eq!(wait.step(OWN), NextCommWindowAction::PollAfter(2));
    assert_eq!(wait.step(OWN), NextCommWindowAction::PollAfter(2));
    assert_eq!(wait.step(CLOSED), NextCommWindowAction::Poll);
    assert_eq!(wait.step(CASE), NextCommWindowAction::PollAfter(2));
    assert_eq!(wait.step(OWN), NextCommWindowAction::Return);

    let mut wait = WaitNextCommWindow::new();
    assert_eq!(wait.step(CASE), NextCommWindowAction::Poll);
    assert_eq!(wait.step(OWN), NextCommWindowAction::Return);
}

#[test]
fn peripheral_runs_while_the_own_window_is_open() {
    let mut run = RunGattWhileBleCommissionable::new();
    assert!(matches!(run.step::<u8>(GattEvent::WindowPolled(CLOSED)), GattAction::PollAfter(2)));
    assert!(matches!(run.step::<u8>(GattEvent::WindowPolled(OWN)), GattAction::StartPeripheral));
    assert!(matches!(run.step::<u8>(GattEvent::WindowPolled(OWN)), GattAction::PollAfter(2)));
    assert!(matches!(run.step::<u8>(GattEvent::WindowPolled(CLOSED)), GattAction::StopPeripheral));
    assert!(matches!(run.step::<u8>(GattEvent::WindowPolled(CLOSED)), GattAction::PollAfter(2)));
}

#[test]
fn peripheral_stops_when_a_window_over_case_takes_the_place_of_the_own_one() {
    let mut run = RunGattWhileBleCommissionable::new();
    assert!(matches!(run.step::<u8>(GattEvent::WindowPolled(OWN)), GattAction::StartPeripheral));
    assert!(matches!(run.step::<u8>(GattEvent::WindowPolled(CASE)), GattAction::StopPeripheral));
    assert!(matches!(run.step::<u8>(GattEvent::WindowPolled(CASE)), GattAction::Poll));
    assert!(matches!(run.step::<u8>(GattEvent::WindowPolled(CASE)), GattAction::PollAfter(2)));
    // The other way round, the peripheral stays down until no window is open
    assert!(matches!(run.step::<u8>(GattEvent::WindowPolled(OWN)), GattAction::PollAfter(2)));
    assert!(matches!(run.step::<u8>(GattEvent::WindowPolled(CLOSED)), GattAction::Poll));
    assert!(matches!(run.step::<u8>(GattEvent::WindowPolled(OWN)), GattAction::StartPeripheral));
}

#[test]
fn peripheral_stays_down_for_a_window_over_case() {
    let mut run = RunGattWhileBleCommissionable::new();
    assert!(matches!(run.step::<u8>(GattEvent::WindowPolled(CASE)), GattAction::Poll));
    assert!(matches!(run.step::<u8>(GattEvent::WindowPolled(CASE)), GattAction::PollAfter(2)));
    assert!(matches!(run.step::<u8>(GattEvent::WindowPolled(CLOSED)), GattAction::Poll));
    assert!(matches!(run.step::<u8>(GattEvent::WindowPolled(OWN)), GattAction::StartPeripheral));
}

#[test]
fn peripheral_is_started_again_unless_it_fails() {
    let mut run = RunGattWhileBleCommissionable::new();
    run.step::<u8>(GattEvent::WindowPolled(OWN));
    assert!(matches!(run.step::<u8>(GattEvent::PeripheralEnded(Ok(()))), GattAction::Poll));
    assert!(matches!(run.step::<u8>(GattEvent::WindowPolled(OWN)), GattAction::StartPeripheral));
    assert!(matches!(run.step::<u8>(GattEvent::PeripheralEnded(Err(6))), GattAction::Fail(6)));
    assert_eq!(run, RunGattWhileBleCommissionable::Failed);
}

#[test]
fn ble_phase_ends_once_provisioned_and_settled() {
    let mut run = RunBtp::new();
    assert!(matches!(run.step::<u8>(BtpEvent::WindowPolled(OWN)), BtpAction::PollAfter(2)));
    assert!(matches!(run.step::<u8>(BtpEvent::Provisioned), BtpAction::SettleFor(2)));
    assert!(matches!(run.step::<u8>(BtpEvent::WindowPolled(OWN)), BtpAction::PollAfter(2)));
    assert!(matches!(run.step::<u8>(BtpEvent::Settled), BtpAction::Return(Ok(()))));
}

#[test]
fn ble_phase_ends_when_the_window_goes_away() {
    for gone in [CLOSED, CASE] {
        let mut run = RunBtp::new();
        run.step::<u8>(BtpEvent::WindowPolled(OWN));
        assert!(matches!(run.step::<u8>(BtpEvent::WindowPolled(gone)), BtpAction::Return(Ok(()))));
        assert_eq!(run, RunBtp::Ended);
    }
}

#[test]
fn ble_phase_ends_with_its_peripheral_or_transport() {
    let mut run = RunBtp::new();
    assert!(matches!(run.step::<u8>(BtpEvent::PeripheralEnded(Err(1))), BtpAction::Return(Err(1))));
    let mut run = RunBtp::new();
    run.step::<u8>(BtpEvent::Provisioned);
    assert!(matches!(run.step::<u8>(BtpEvent::TransportEnded(Err(2))), BtpAction::Return(Err(2))));
    let mut run = RunBtp::new();
    assert!(matches!(run.step::<u8>(BtpEvent::TransportEnded(Ok(()))), BtpAction::Return(Ok(()))));
}

#[test]
fn wifi_runs_after_ble_for_a_device_that_is_not_commissioned() {
    let mut run = RunWifi::new();
    assert!(matches!(run.step::<u8>(WifiEvent::Commissioned(Ok(false))), WifiAction::RunBle));
    assert!(matches!(run.step::<u8>(WifiEvent::BleEnded(Ok(()))), WifiAction::RunWifi));
    assert!(matches!(run.step::<u8>(WifiEvent::WifiEnded(Ok(()))), WifiAction::CheckCommissioned));
    assert!(matches!(run.step::<u8>(WifiEvent::Commissioned(Ok(true))), WifiAction::CloseCommWindow));
    assert!(matches!(run.step::<u8>(WifiEvent::WindowClosed(Ok(()))), WifiAction::RunWifi));
    assert_eq!(run, RunWifi::Wifi);
}

#[test]
fn wireless_run_ends_with_the_first_failure() {
    let mut run = RunWifi::new();
    assert!(matches!(run.step::<u8>(WifiEvent::Commissioned(Err(1))), WifiAction::Fail(1)));
    let mut run = RunWifi::Ble;
    assert!(matches!(run.step::<u8>(WifiEvent::BleEnded(Err(2))), WifiAction::Fail(2)));
    let mut run = RunWifi::ClosingWindow;
    assert!(matches!(run.step::<u8>(WifiEvent::WindowClosed(Err(3))), WifiAction::Fail(3)));
    let mut run = RunWifi::Wifi;
    assert!(matches!(run.step::<u8>(WifiEvent::WifiEnded(Err(4))), WifiAction::Fail(4)));
    assert_eq!(run, RunWifi::Failed);
}

fn provisioned() -> NetCtlState {
    NetCtlState {
        network_id: vec![1, 2],
        networking_status: Some(NetworkCommissioningStatus::Success),
        connect_error_value: None,
    }
}

#[test]
fn outcome_of_a_connect_is_forgotten() {
    let mut stack: WirelessMatterStack<16, u8, ()> = WirelessMatterStack::new();
    assert!(stack.network().net_ctl_state().network_id.is_empty());
    stack.network_mut().set_net_ctl_state(provisioned());
    assert_eq!(stack.network().net_ctl_state().network_id, vec![1, 2]);
    stack.reset_net_ctl_state();
    let state = stack.network().net_ctl_state();
    assert!(state.network_id.is_empty());
    assert_eq!((state.networking_status, state.connect_error_value), (None, None));
    let fresh = WirelessBle::<u8, ()>::default();
    assert!(fresh.net_ctl_state().networking_status.is_none());
    assert_eq!(MAX_WIRELESS_NETWORKS, 2);
}

/// A controller that answers everything with the same number.
struct Controller(u8);

fn commissioning() -> WirelessNetCtl<'static, Controller> {
    WirelessNetCtl::Commissioning(NetworkType::Thread)
}

#[test]
fn controller_answers_with_defaults_during_commissioning() {
    let ctl = commissioning();
    assert_eq!(ctl.net_type(|_: &Controller| NetworkType::Wifi), NetworkType::Thread);
    assert_eq!(ctl.connect_max_time_seconds(|q: &Controller| q.0), 0);
    assert_eq!(ctl.scan_max_time_seconds(|q: &Controller| q.0), 0);
    assert_eq!(ctl.supported_wifi_bands(|_: &Controller| Err(1u8)), Ok(()));
    assert_eq!(ctl.supported_thread_features(|q: &Controller| q.0 as u16), 0);
    assert_eq!(ctl.thread_version(|q: &Controller| q.0 as u16), 0);
    assert!(ctl.wait_changed().is_none());
    assert_eq!(ctl.connected(|_: &Controller| Ok::<bool, u8>(true)), Ok(false));
    assert_eq!(ctl.security_type(|q: &Controller| Ok::<_, u8>(Some(q.0))), Ok(None));
    assert_eq!(ctl.wi_fi_version(|q: &Controller| Ok::<_, u8>(Some(q.0))), Ok(None));
    assert_eq!(ctl.channel_number(|q: &Controller| Ok::<_, u8>(Some(q.0 as u16))), Ok(None));
    assert_eq!(ctl.rssi(|q: &Controller| Ok::<_, u8>(Some(q.0 as i8))), Ok(None));
    assert_eq!(ctl.channel(|q: &Controller| Ok::<_, u8>(Some(q.0 as u16))), Ok(None));
    assert_eq!(ctl.routing_role(|q: &Controller| Ok::<_, u8>(Some(q.0))), Ok(None));
    assert_eq!(ctl.pan_id(|q: &Controller| Ok::<_, u8>(Some(q.0 as u16))), Ok(None));
    assert_eq!(ctl.extended_pan_id(|q: &Controller| Ok::<_, u8>(Some(q.0 as u64))), Ok(None));
    assert_eq!(ctl.neighbor_table(|_: &Controller| Err(1u8)), Ok(()));
    assert_eq!(ctl.route_table(|_: &Controller| Err(1u8)), Ok(()));
    assert_eq!(ctl.partition_id(|q: &Controller| Ok::<_, u8>(Some(q.0 as u32))), Ok(None));
    assert_eq!(ctl.weighting(|q: &Controller| Ok::<_, u8>(Some(q.0 as u16))), Ok(None));
    assert_eq!(ctl.data_version(|q: &Controller| Ok::<_, u8>(Some(q.0 as u16))), Ok(None));
    assert_eq!(ctl.stable_data_version(|q: &Controller| Ok::<_, u8>(Some(q.0 as u16))), Ok(None));
    assert_eq!(ctl.leader_router_id(|q: &Controller| Ok::<_, u8>(Some(q.0))), Ok(None));
    assert_eq!(ctl.ext_address(|q: &Controller| Ok::<_, u8>(Some(q.0 as u64))), Ok(None));
    assert_eq!(ctl.rloc_16(|q: &Controller| Ok::<_, u8>(Some(q.0 as u16))), Ok(None));
    assert_eq!(ctl.security_policy(|q: &Controller| Ok::<_, u8>(Some(q.0))), Ok(None));
    assert_eq!(ctl.active_network_faults_list(|_: &Controller| Err(1u8)), Ok(()));
}

#[test]
fn visitors_visit_nothing_during_commissioning() {
    let ctl = commissioning();
    let bytes = |v: Option<&[u8]>| -> Result<(), usize> {
        match v {
            None => Err(0),
            Some(v) => Err(v.len()),
        }
    };
    let text = |v: Option<&str>| -> Result<(), usize> {
        match v {
            None => Err(0),
            Some(v) => Err(v.len()),
        }
    };
    let number = |v: Option<u8>| -> Result<(), usize> {
        match v {
            None => Err(0),
            Some(v) => Err(v as usize),
        }
    };
    assert_eq!(ctl.bssid(bytes, |_: &Controller, f| f(Some(&[1, 2]))), Err(0));
    assert_eq!(ctl.network_name(text, |_: &Controller, f| f(Some("net"))), Err(0));
    assert_eq!(ctl.mesh_local_prefix(bytes, |_: &Controller, f| f(Some(&[1, 2]))), Err(0));
    assert_eq!(ctl.channel_page0_mask(bytes, |_: &Controller, f| f(Some(&[1, 2]))), Err(0));
    assert_eq!(ctl.operational_dataset_components(number, |q: &Controller, f| f(Some(q.0))), Err(0));

    let real = Controller(7);
    let ctl = WirelessNetCtl::Operational(&real);
    assert_eq!(ctl.bssid(bytes, |_: &Controller, f| f(Some(&[1, 2]))), Err(2));
    assert_eq!(ctl.network_name(text, |_: &Controller, f| f(Some("net"))), Err(3));
    assert_eq!(ctl.mesh_local_prefix(bytes, |_: &Controller, f| f(Some(&[1]))), Err(1));
    assert_eq!(ctl.channel_page0_mask(bytes, |_: &Controller, f| f(Some(&[1, 2]))), Err(2));
    assert_eq!(ctl.operational_dataset_components(number, |q: &Controller, f| f(Some(q.0))), Err(7));
}

#[test]
fn controller_asks_the_real_one_when_operational() {
    let real = Controller(7);
    let ctl = WirelessNetCtl::Operational(&real);
    assert_eq!(ctl.net_type(|_: &Controller| NetworkType::Wifi), NetworkType::Wifi);
    assert_eq!(ctl.connect_max_time_seconds(|q: &Controller| q.0), 7);
    assert_eq!(ctl.supported_wifi_bands(|_: &Controller| Err(1u8)), Err(1));
    assert_eq!(ctl.rssi(|q: &Controller| Ok::<_, u8>(Some(q.0 as i8))), Ok(Some(7)));
    assert_eq!(ctl.connected(|_: &Controller| Ok::<bool, u8>(true)), Ok(true));
    assert_eq!(ctl.ext_address(|q: &Controller| Ok::<_, u8>(Some(q.0 as u64))), Ok(Some(7)));
    assert_eq!(ctl.wait_changed().map(|q| q.0), Some(7));
    assert_eq!(ctl.scan().map(|q| q.0), Ok(7));
    assert!(matches!(ctl.connect(|_| Err(1u8)), Connect::With(Controller(7))));
}

#[test]
fn scan_is_refused_and_credentials_are_checked_during_commissioning() {
    let ctl = commissioning();
    assert_eq!(ctl.scan().err(), Some(NetCtlError::Other(ErrorCode::InvalidAction)));
    let for_thread = |net_type: NetworkType| match net_type {
        NetworkType::Thread => Ok(()),
        _ => Err("not for this network"),
    };
    let for_wifi = |net_type: NetworkType| match net_type {
        NetworkType::Wifi => Ok(()),
        _ => Err("not for this network"),
    };
    assert!(matches!(ctl.connect(for_thread), Connect::Answered(Ok(()))));
    assert!(matches!(
        ctl.connect(for_wifi),
        Connect::Answered(Err(NetCtlError::Other("not for this network")))
    ));
}

#[test]
fn preexisting_wireless_hands_out_its_parts() {
    let mut wireless = PreexistingWireless::new(1u8, 2u16, 3u32, 4u64, "gatt");
    {
        let (stack, netif, net_ctl, mdns, gatt) = wireless.run();
        assert_eq!((*stack, *netif, *net_ctl, *mdns, *gatt), (1, 2, 3, 4, "gatt"));
        *mdns = 5;
        *gatt = "other";
    }
    let parts = wireless.run();
    assert_eq!((*parts.3, *parts.4), (5, "other"));
}
