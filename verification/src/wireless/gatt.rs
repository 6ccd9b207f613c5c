//! Running the BLE GATT peripheral, for as long as the device is commissionable over BLE.
use vstd::prelude::*;

use crate::wireless::window::{
    wait_comm_window, CommWindowOpener, CommWindowState, CommWindowWait, POLL_INTERVAL_SECS,
};

verus! {

/// Running the GATT peripheral (and with it the BTP transport), but only for as long as the
/// device is actually commissionable over BLE. Never ends, unless the peripheral itself fails.
///
/// BLE carries a window the device opened for itself - initial commissioning. A window re-opened
/// by an administrator over CASE is advertised on the operational IP network alone, so the
/// peripheral stays down for it.
#[derive(Debug, Clone, Copy, PartialEq, Eq, Structural)]
pub enum RunGattWhileBleCommissionable {
    /// No window is known to be open; the peripheral is down
    AwaitOpen,
    /// A window was opened over CASE, and none was seen closed since; the peripheral is down
    AwaitClosed,
    /// A window is open that the device opened for itself; the peripheral is up
    Advertising,
    /// The peripheral has failed
    Failed,
}

/// What happens while the GATT peripheral is being run.
#[derive(Debug)]
pub enum GattEvent<X> {
    /// The state of the commissioning window was read
    WindowPolled(CommWindowState),
    /// The peripheral has ended on its own
    PeripheralEnded(Result<(), X>),
}

/// What to do next about the GATT peripheral.
#[derive(Debug)]
pub enum GattAction<X> {
    /// Read the state of the commissioning window at once
    Poll,
    /// Read the state of the commissioning window after that many seconds
    PollAfter(u64),
    /// Start the peripheral, and read the state of the commissioning window at once
    StartPeripheral,
    /// Stop the peripheral, and read the state of the commissioning window at once
    StopPeripheral,
    /// End with this failure
    Fail(X),
}

impl RunGattWhileBleCommissionable {
    /// `event` can happen now: only a peripheral that is up can end.
    pub open spec fn awaits<X>(self, event: GattEvent<X>) -> bool {
        match event {
            GattEvent::WindowPolled(_) => !(self is Failed),
            GattEvent::PeripheralEnded(_) => self is Advertising,
        }
    }

    /// What is awaited once `event` has happened.
    pub open spec fn next<X>(self, event: GattEvent<X>) -> Self {
        match event {
            GattEvent::WindowPolled(state) => if !state.open() {
                RunGattWhileBleCommissionable::AwaitOpen
            } else if self is AwaitClosed {
                RunGattWhileBleCommissionable::AwaitClosed
            } else if state.open_on_all_transports() {
                RunGattWhileBleCommissionable::Advertising
            } else if self is Advertising {
                RunGattWhileBleCommissionable::AwaitOpen
            } else {
                RunGattWhileBleCommissionable::AwaitClosed
            },
            GattEvent::PeripheralEnded(Ok(_)) => RunGattWhileBleCommissionable::AwaitOpen,
            GattEvent::PeripheralEnded(Err(_)) => RunGattWhileBleCommissionable::Failed,
        }
    }

    /// What is to be done once `event` has happened.
    pub open spec fn action<X>(self, event: GattEvent<X>) -> GattAction<X> {
        match event {
            GattEvent::PeripheralEnded(Err(e)) => GattAction::Fail(e),
            GattEvent::PeripheralEnded(Ok(_)) => GattAction::Poll,
            GattEvent::WindowPolled(_) => if self.next(event) == self {
                GattAction::PollAfter(POLL_INTERVAL_SECS)
            } else if self.next(event) is Advertising {
                GattAction::StartPeripheral
            } else if self is Advertising {
                GattAction::StopPeripheral
            } else {
                GattAction::Poll
            },
        }
    }

    /// Start out, with the peripheral down: the state of the window is to be read at once.
    pub fn new() -> (r: Self)
        ensures
            r is AwaitOpen,
    {
        RunGattWhileBleCommissionable::AwaitOpen
    }

    /// Take note of what has happened, and decide what to do next.
    pub fn step<X>(&mut self, event: GattEvent<X>) -> (r: GattAction<X>)
        requires
            old(self).awaits(event),
        ensures
            *final(self) == old(self).next(event),
            r == old(self).action(event),
            match (*old(self), event) {
                (_, GattEvent::PeripheralEnded(Ok(_))) => {
                    &&& *final(self) is AwaitOpen
                    &&& r == GattAction::<X>::Poll
                },
                (_, GattEvent::PeripheralEnded(Err(e))) => {
                    &&& *final(self) is Failed
                    &&& r == GattAction::<X>::Fail(e)
                },
                (
                    RunGattWhileBleCommissionable::AwaitOpen,
                    GattEvent::WindowPolled(state),
                ) => match state {
                    CommWindowState::Closed => {
                        &&& *final(self) is AwaitOpen
                        &&& r == GattAction::<X>::PollAfter(2)
                    },
                    CommWindowState::Open { opener: None } => {
                        &&& *final(self) is Advertising
                        &&& r == GattAction::<X>::StartPeripheral
                    },
                    CommWindowState::Open { opener: Some(_) } => {
                        &&& *final(self) is AwaitClosed
                        &&& r == GattAction::<X>::Poll
                    },
                },
                (
                    RunGattWhileBleCommissionable::Advertising,
                    GattEvent::WindowPolled(state),
                ) => if state == (CommWindowState::Open { opener: None }) {
                    &&& *final(self) is Advertising
                    &&& r == GattAction::<X>::PollAfter(2)
                } else {
                    &&& *final(self) is AwaitOpen
                    &&& r == GattAction::<X>::StopPeripheral
                },
                (_, GattEvent::WindowPolled(state)) => if state == CommWindowState::Closed {
                    &&& *final(self) is AwaitOpen
                    &&& r == GattAction::<X>::Poll
                } else {
                    &&& *final(self) is AwaitClosed
                    &&& r == GattAction::<X>::PollAfter(2)
                },
            },
    {
        match event {
            GattEvent::PeripheralEnded(Ok(())) => {
                *self = RunGattWhileBleCommissionable::AwaitOpen;
                GattAction::Poll
            },
            GattEvent::PeripheralEnded(Err(e)) => {
                *self = RunGattWhileBleCommissionable::Failed;
                GattAction::Fail(e)
            },
            GattEvent::WindowPolled(state) => {
                if let RunGattWhileBleCommissionable::AwaitOpen = self {
                    let opened = |s: &CommWindowState| -> (b: bool)
                        ensures
                            b == s.open(),
                        { s.is_open() };
                    match wait_comm_window(opened, state) {
                        CommWindowWait::Done(state) => {
                            if state.is_open_on_all_transports() {
                                *self = RunGattWhileBleCommissionable::Advertising;
                                GattAction::StartPeripheral
                            } else {
                                *self = RunGattWhileBleCommissionable::AwaitClosed;
                                GattAction::Poll
                            }
                        },
                        CommWindowWait::PollAfter(secs) => GattAction::PollAfter(secs),
                    }
                } else if let RunGattWhileBleCommissionable::Advertising = self {
                    let gone = |s: &CommWindowState| -> (b: bool)
                        ensures
                            b == !s.open_on_all_transports(),
                        { !s.is_open_on_all_transports() };
                    match wait_comm_window(gone, state) {
                        CommWindowWait::Done(_) => {
                            *self = RunGattWhileBleCommissionable::AwaitOpen;
                            GattAction::StopPeripheral
                        },
                        CommWindowWait::PollAfter(secs) => GattAction::PollAfter(secs),
                    }
                } else {
                    let closed = |s: &CommWindowState| -> (b: bool)
                        ensures
                            b == !s.open(),
                        { !s.is_open() };
                    match wait_comm_window(closed, state) {
                        CommWindowWait::Done(_) => {
                            *self = RunGattWhileBleCommissionable::AwaitOpen;
                            GattAction::Poll
                        },
                        CommWindowWait::PollAfter(secs) => GattAction::PollAfter(secs),
                    }
                }
            },
        }
    }

    /// What is awaited after `events`, one after another.
    pub open spec fn after<X>(events: Seq<GattEvent<X>>) -> Self
        decreases events.len(),
    {
        if events.len() == 0 {
            RunGattWhileBleCommissionable::AwaitOpen
        } else {
            Self::after(events.drop_last()).next(events.last())
        }
    }

    /// Each of `events` can happen once those before it have.
    pub open spec fn can_happen<X>(events: Seq<GattEvent<X>>) -> bool
        decreases events.len(),
    {
        events.len() > 0 ==> {
            &&& Self::can_happen(events.drop_last())
            &&& Self::after(events.drop_last()).awaits(events.last())
        }
    }

    /// The peripheral is up after `events`, as far as it was started and stopped, or ended.
    pub open spec fn is_up<X>(events: Seq<GattEvent<X>>) -> bool
        decreases events.len(),
    {
        if events.len() == 0 {
            false
        } else {
            match Self::after(events.drop_last()).action(events.last()) {
                GattAction::StartPeripheral => true,
                GattAction::StopPeripheral => false,
                _ => Self::is_up(events.drop_last()) && !(events.last() is PeripheralEnded),
            }
        }
    }
}

/// A window was open that the device had opened for itself, at that read of its state.
pub open spec fn saw_own_window<X>(event: GattEvent<X>) -> bool {
    event matches GattEvent::WindowPolled(state) && state.open_on_all_transports()
}

/// No look at a window that was opened over CASE ever starts the peripheral or leaves it up,
/// whatever was awaited, and whoever the administrator is.
pub proof fn lemma_window_over_case_never_starts_peripheral<X>(
    run: RunGattWhileBleCommissionable,
    opener: CommWindowOpener,
)
    ensures
        ({
            let event = GattEvent::<X>::WindowPolled(
                CommWindowState::Open { opener: Some(opener) },
            );
            &&& !(run.action(event) is StartPeripheral)
            &&& !(run.next(event) is Advertising)
            &&& run is Advertising ==> run.action(event) is StopPeripheral
        }),
{
}

/// While no window is open at all, the peripheral is never started, and does not stay up.
pub proof fn lemma_no_window_no_peripheral<X>(run: RunGattWhileBleCommissionable)
    ensures
        ({
            let event = GattEvent::<X>::WindowPolled(CommWindowState::Closed);
            &&& run.next(event) is AwaitOpen
            &&& !(run.action(event) is StartPeripheral)
            &&& run is Advertising ==> run.action(event) is StopPeripheral
        }),
{
}

/// The peripheral is started for a window that the device has opened for itself, unless a window
/// over CASE was not seen closed before, and it stays up for as long as that window is open.
pub proof fn lemma_own_window_starts_peripheral<X>(run: RunGattWhileBleCommissionable)
    ensures
        ({
            let event = GattEvent::<X>::WindowPolled(CommWindowState::Open { opener: None });
            &&& run is AwaitOpen ==> run.next(event) is Advertising && run.action(
                event,
            ) is StartPeripheral
            &&& run is Advertising ==> run.next(event) is Advertising && run.action(event)
                == GattAction::<X>::PollAfter(2)
            &&& run is AwaitClosed ==> run.next(event) is AwaitClosed && run.action(event)
                == GattAction::<X>::PollAfter(2)
        }),
{
}

/// The peripheral is up exactly while the run is advertising: it is never started twice, and
/// never left running otherwise.
pub proof fn lemma_up_while_advertising<X>(events: Seq<GattEvent<X>>)
    requires
        RunGattWhileBleCommissionable::can_happen(events),
    ensures
        RunGattWhileBleCommissionable::is_up(events) <==> RunGattWhileBleCommissionable::after(
            events,
        ) is Advertising,
    decreases events.len(),
{
    if events.len() > 0 {
        lemma_up_while_advertising(events.drop_last());
    }
}

/// After every look at the window, the peripheral is up exactly if the device is commissionable
/// over BLE - if a window is open that the device has opened for itself - and does not still wait
/// for a window over CASE to close.
pub proof fn lemma_up_while_commissionable<X>(events: Seq<GattEvent<X>>)
    requires
        RunGattWhileBleCommissionable::can_happen(events),
        events.len() > 0,
        events.last() is WindowPolled,
    ensures
        RunGattWhileBleCommissionable::is_up(events) <==> saw_own_window(events.last()) && !(
        RunGattWhileBleCommissionable::after(events.drop_last()) is AwaitClosed),
{
    lemma_up_while_advertising(events);
}

/// Where the peripheral is up, it was started for a window that the device had opened for itself,
/// and such a window has been open at every look since.
pub proof fn lemma_up_for_own_window_only<X>(events: Seq<GattEvent<X>>) -> (start: int)
    requires
        RunGattWhileBleCommissionable::can_happen(events),
        RunGattWhileBleCommissionable::is_up(events),
    ensures
        0 <= start < events.len(),
        saw_own_window(events[start]),
        forall|i: int|
            start <= i < events.len() ==> #[trigger] events[i] == GattEvent::<X>::WindowPolled(
                CommWindowState::Open { opener: None },
            ),
        forall|i: int| start <= i < events.len() ==> saw_own_window(#[trigger] events[i]),
    decreases events.len(),
{
    let before = events.drop_last();
    let n = events.len() - 1;
    lemma_up_while_advertising(events);
    lemma_up_while_advertising(before);
    if RunGattWhileBleCommissionable::is_up(before) && !(
    RunGattWhileBleCommissionable::after(before).action(events.last()) is StartPeripheral) {
        let start = lemma_up_for_own_window_only(before);
        assert forall|i: int| start <= i < events.len() implies saw_own_window(
            #[trigger] events[i],
        ) by {
            if i < n {
                assert(saw_own_window(before[i]));
            }
        }
        start
    } else {
        n
    }
}

/// The peripheral stays down for as long as no window but those opened over CASE is seen.
pub proof fn lemma_down_for_windows_over_case<X>(events: Seq<GattEvent<X>>)
    requires
        RunGattWhileBleCommissionable::can_happen(events),
        forall|i: int| 0 <= i < events.len() ==> !saw_own_window(#[trigger] events[i]),
    ensures
        !RunGattWhileBleCommissionable::is_up(events),
{
    if RunGattWhileBleCommissionable::is_up(events) {
        let start = lemma_up_for_own_window_only(events);
    }
}

/// The run has ended exactly if the peripheral has failed: no other event ends it.
pub proof fn lemma_ends_with_peripheral_failure_only<X>(events: Seq<GattEvent<X>>)
    requires
        RunGattWhileBleCommissionable::can_happen(events),
    ensures
        RunGattWhileBleCommissionable::after(events) is Failed <==> exists|i: int|
            0 <= i < events.len() && (#[trigger] events[i] matches GattEvent::PeripheralEnded(r)
                && r is Err),
    decreases events.len(),
{
    if events.len() > 0 {
        let before = events.drop_last();
        lemma_ends_with_peripheral_failure_only(before);
        assert(forall|i: int| 0 <= i < before.len() ==> #[trigger] events[i] == before[i]);
        let last = events[events.len() - 1];
        if exists|i: int|
            0 <= i < events.len() && (#[trigger] events[i] matches GattEvent::PeripheralEnded(r)
                && r is Err) {
            let i = choose|i: int|
                0 <= i < events.len() && (#[trigger] events[i] matches GattEvent::PeripheralEnded(r)
                    && r is Err);
            if i < before.len() {
                assert(before[i] matches GattEvent::PeripheralEnded(r) && r is Err);
            }
        }
    }
}

/// How long BLE is kept up once the network credentials were handed over.
pub const SETTLE_SECS: u64 = 2;

/// Running the BLE phase of a non-concurrent commissioning: the GATT peripheral and the BTP
/// transport, until the commissioner has handed over the network credentials.
///
/// The window this phase is advertising can also simply go away - it expires, or an administrator
/// revokes it - without the commissioner ever getting as far as handing over the network
/// credentials. Then there is nothing left to advertise, and BLE stops.
#[derive(Debug, Clone, Copy, PartialEq, Eq, Structural)]
pub enum RunBtp {
    /// The network credentials were not handed over yet
    Commissioning,
    /// The network credentials were handed over
    Settling,
    /// The phase is over
    Ended,
}

/// What happens during the BLE phase.
#[derive(Debug)]
pub enum BtpEvent<X> {
    /// The peripheral has ended on its own
    PeripheralEnded(Result<(), X>),
    /// The transport has ended on its own
    TransportEnded(Result<(), X>),
    /// The network credentials were handed over
    Provisioned,
    /// The time to settle has passed
    Settled,
    /// The state of the commissioning window was read
    WindowPolled(CommWindowState),
}

/// What to do next during the BLE phase.
#[derive(Debug)]
pub enum BtpAction<X> {
    /// Wait for that many seconds, for BLE to settle
    SettleFor(u64),
    /// Read the state of the commissioning window after that many seconds
    PollAfter(u64),
    /// Stop the peripheral and the transport, and end with this outcome
    Return(Result<(), X>),
}

impl RunBtp {
    /// `event` can happen now.
    pub open spec fn awaits<X>(self, event: BtpEvent<X>) -> bool {
        match event {
            BtpEvent::Provisioned => self is Commissioning,
            BtpEvent::Settled => self is Settling,
            _ => !(self is Ended),
        }
    }

    /// The outcome with which `event` ends the phase, or `None` if it does not end it.
    pub open spec fn outcome<X>(event: BtpEvent<X>) -> Option<Result<(), X>> {
        match event {
            BtpEvent::PeripheralEnded(result) => Some(result),
            BtpEvent::TransportEnded(result) => Some(result),
            BtpEvent::Provisioned => None,
            BtpEvent::Settled => Some(Ok(())),
            BtpEvent::WindowPolled(state) => if state.open_on_all_transports() {
                None
            } else {
                Some(Ok(()))
            },
        }
    }

    /// The phase once `event` has happened.
    pub open spec fn next<X>(self, event: BtpEvent<X>) -> Self {
        if Self::outcome(event) is Some {
            RunBtp::Ended
        } else if event is Provisioned {
            RunBtp::Settling
        } else {
            self
        }
    }

    /// Start the phase, with the peripheral and the transport: the state of the window is to be
    /// read at once.
    pub fn new() -> (r: Self)
        ensures
            r is Commissioning,
    {
        RunBtp::Commissioning
    }

    /// Take note of what has happened, and decide what to do next.
    pub fn step<X>(&mut self, event: BtpEvent<X>) -> (r: BtpAction<X>)
        requires
            old(self).awaits(event),
        ensures
            *final(self) == old(self).next(event),
            match event {
                BtpEvent::PeripheralEnded(result) => {
                    &&& *final(self) is Ended
                    &&& r == BtpAction::<X>::Return(result)
                },
                BtpEvent::TransportEnded(result) => {
                    &&& *final(self) is Ended
                    &&& r == BtpAction::<X>::Return(result)
                },
                BtpEvent::Provisioned => {
                    &&& *final(self) is Settling
                    &&& r == BtpAction::<X>::SettleFor(2)
                },
                BtpEvent::Settled => {
                    &&& *final(self) is Ended
                    &&& r == BtpAction::<X>::Return(Ok(()))
                },
                BtpEvent::WindowPolled(state) => if state == (CommWindowState::Open {
                    opener: None,
                }) {
                    &&& *final(self) == *old(self)
                    &&& r == BtpAction::<X>::PollAfter(2)
                } else {
                    &&& *final(self) is Ended
                    &&& r == BtpAction::<X>::Return(Ok(()))
                },
            },
            match Self::outcome(event) {
                Some(outcome) => r == BtpAction::Return(outcome),
                None => r == if event is Provisioned {
                    BtpAction::<X>::SettleFor(SETTLE_SECS)
                } else {
                    BtpAction::<X>::PollAfter(POLL_INTERVAL_SECS)
                },
            },
    {
        match event {
            BtpEvent::PeripheralEnded(result) => {
                *self = RunBtp::Ended;
                BtpAction::Return(result)
            },
            BtpEvent::TransportEnded(result) => {
                *self = RunBtp::Ended;
                BtpAction::Return(result)
            },
            BtpEvent::Provisioned => {
                *self = RunBtp::Settling;
                BtpAction::SettleFor(SETTLE_SECS)
            },
            BtpEvent::Settled => {
                *self = RunBtp::Ended;
                BtpAction::Return(Ok(()))
            },
            BtpEvent::WindowPolled(state) => {
                let gone = |s: &CommWindowState| -> (b: bool)
                    ensures
                        b == !s.open_on_all_transports(),
                    { !s.is_open_on_all_transports() };
                match wait_comm_window(gone, state) {
                    CommWindowWait::Done(_) => {
                        *self = RunBtp::Ended;
                        BtpAction::Return(Ok(()))
                    },
                    CommWindowWait::PollAfter(secs) => BtpAction::PollAfter(secs),
                }
            },
        }
    }

    /// The phase after `events`, one after another.
    pub open spec fn after<X>(events: Seq<BtpEvent<X>>) -> Self
        decreases events.len(),
    {
        if events.len() == 0 {
            RunBtp::Commissioning
        } else {
            Self::after(events.drop_last()).next(events.last())
        }
    }

    /// Each of `events` can happen once those before it have.
    pub open spec fn can_happen<X>(events: Seq<BtpEvent<X>>) -> bool
        decreases events.len(),
    {
        events.len() > 0 ==> {
            &&& Self::can_happen(events.drop_last())
            &&& Self::after(events.drop_last()).awaits(events.last())
        }
    }
}

/// Where the BLE phase has ended with success, either the network credentials were handed over,
/// or the window is gone, or the peripheral or the transport has ended with success.
pub proof fn lemma_ble_phase_success<X>(events: Seq<BtpEvent<X>>)
    requires
        RunBtp::can_happen(events),
        events.len() > 0,
        RunBtp::outcome(events.last()) == Some(Ok::<(), X>(())),
    ensures
        ({
            ||| exists|i: int| 0 <= i < events.len() && #[trigger] events[i] is Provisioned
            ||| events.last() matches BtpEvent::WindowPolled(state) && state != (
            CommWindowState::Open { opener: None })
            ||| events.last() == BtpEvent::<X>::PeripheralEnded(Ok(()))
            ||| events.last() == BtpEvent::<X>::TransportEnded(Ok(()))
        }),
{
    lemma_settling_after_provisioned(events.drop_last());
    if events.last() is Settled {
        let i = choose|i: int|
            0 <= i < events.drop_last().len() && #[trigger] events.drop_last()[i] is Provisioned;
        assert(events[i] is Provisioned);
    }
}

/// The BLE phase settles only once the network credentials were handed over.
proof fn lemma_settling_after_provisioned<X>(events: Seq<BtpEvent<X>>)
    ensures
        RunBtp::after(events) is Settling ==> exists|i: int|
            0 <= i < events.len() && #[trigger] events[i] is Provisioned,
    decreases events.len(),
{
    if events.len() > 0 {
        let before = events.drop_last();
        lemma_settling_after_provisioned(before);
        if RunBtp::after(events) is Settling {
            if events.last() is Provisioned {
                assert(events[events.len() - 1] is Provisioned);
            } else {
                let i = choose|i: int| 0 <= i < before.len() && #[trigger] before[i] is Provisioned;
                assert(events[i] is Provisioned);
            }
        }
    }
}

/// The BLE phase ends as soon as the device's own window is gone, even if an administrator has
/// opened another one over CASE, and it does not end at a look at its own window.
pub proof fn lemma_ble_phase_lasts_as_long_as_own_window<X>(
    run: RunBtp,
    opener: CommWindowOpener,
)
    ensures
        RunBtp::outcome(
            BtpEvent::<X>::WindowPolled(CommWindowState::Open { opener: Some(opener) }),
        ) == Some(Ok::<(), X>(())),
        RunBtp::outcome(BtpEvent::<X>::WindowPolled(CommWindowState::Closed)) == Some(
            Ok::<(), X>(()),
        ),
        RunBtp::outcome(
            BtpEvent::<X>::WindowPolled(CommWindowState::Open { opener: None }),
        ) is None,
        run.next(BtpEvent::<X>::WindowPolled(CommWindowState::Open { opener: None })) == run,
{
}

/// The BLE phase goes on for as long as nothing ends it: it is over exactly after an event that
/// has an outcome.
pub proof fn lemma_ble_phase_ends_once<X>(events: Seq<BtpEvent<X>>)
    requires
        RunBtp::can_happen(events),
    ensures
        RunBtp::after(events) is Ended <==> events.len() > 0 && RunBtp::outcome(
            events.last(),
        ) is Some,
        forall|i: int|
            0 <= i < events.len() - 1 ==> RunBtp::outcome(#[trigger] events[i]) is None,
    decreases events.len(),
{
    if events.len() > 0 {
        let before = events.drop_last();
        lemma_ble_phase_ends_once(before);
        assert forall|i: int| 0 <= i < events.len() - 1 implies RunBtp::outcome(
            #[trigger] events[i],
        ) is None by {
            assert(events[i] == before[i]);
            if i == before.len() - 1 {
                assert(before.last() == events[i]);
            }
        }
    }
}

} // verus!
