//! Running over Wifi, with BLE for commissioning, where the two cannot co-exist.
use vstd::prelude::*;

verus! {

/// Running a wireless network where BLE and Wifi cannot co-exist: at any point in time, the radio
/// is used either for BLE or for Wifi, but not for both.
///
/// Over and over, a device that is not commissioned runs BLE first, while for one that is the
/// commissioning window is closed; then Wifi runs. Never ends, unless a step fails.
#[derive(Debug, Clone, Copy, PartialEq, Eq, Structural)]
pub enum RunWifi {
    /// Finding out whether the device is commissioned
    Checking,
    /// BLE is running
    Ble,
    /// The commissioning window is being closed
    ClosingWindow,
    /// Wifi is running
    Wifi,
    /// A step has failed
    Failed,
}

/// The end of a step of running the wireless network.
#[derive(Debug)]
pub enum WifiEvent<X> {
    /// It is known whether the device is commissioned
    Commissioned(Result<bool, X>),
    /// BLE has ended
    BleEnded(Result<(), X>),
    /// The commissioning window was closed
    WindowClosed(Result<(), X>),
    /// Wifi has ended
    WifiEnded(Result<(), X>),
}

/// The next step of running the wireless network.
#[derive(Debug)]
pub enum WifiAction<X> {
    /// Find out whether the device is commissioned
    CheckCommissioned,
    /// Run BLE
    RunBle,
    /// Close the commissioning window
    CloseCommWindow,
    /// Run Wifi
    RunWifi,
    /// End with this failure
    Fail(X),
}

/// The failure that `event` reports, if any.
pub open spec fn failure<X>(event: WifiEvent<X>) -> Option<X> {
    match event {
        WifiEvent::Commissioned(Err(e)) => Some(e),
        WifiEvent::BleEnded(Err(e)) => Some(e),
        WifiEvent::WindowClosed(Err(e)) => Some(e),
        WifiEvent::WifiEnded(Err(e)) => Some(e),
        _ => None,
    }
}

impl RunWifi {
    /// `event` is the end of the current step.
    pub open spec fn awaits<X>(self, event: WifiEvent<X>) -> bool {
        match event {
            WifiEvent::Commissioned(_) => self is Checking,
            WifiEvent::BleEnded(_) => self is Ble,
            WifiEvent::WindowClosed(_) => self is ClosingWindow,
            WifiEvent::WifiEnded(_) => self is Wifi,
        }
    }

    /// The step that follows `event`.
    pub open spec fn next<X>(event: WifiEvent<X>) -> Self {
        if failure(event) is Some {
            RunWifi::Failed
        } else {
            match event {
                WifiEvent::Commissioned(commissioned) => if commissioned->Ok_0 {
                    RunWifi::ClosingWindow
                } else {
                    RunWifi::Ble
                },
                WifiEvent::BleEnded(_) => RunWifi::Wifi,
                WifiEvent::WindowClosed(_) => RunWifi::Wifi,
                WifiEvent::WifiEnded(_) => RunWifi::Checking,
            }
        }
    }

    /// Start out: the first step is to find out whether the device is commissioned.
    pub fn new() -> (r: Self)
        ensures
            r is Checking,
    {
        RunWifi::Checking
    }

    /// Take note of the end of the current step, and decide on the next one.
    pub fn step<X>(&mut self, event: WifiEvent<X>) -> (r: WifiAction<X>)
        requires
            old(self).awaits(event),
        ensures
            *final(self) == Self::next(event),
            match event {
                WifiEvent::Commissioned(Ok(true)) => {
                    &&& *final(self) is ClosingWindow
                    &&& r == WifiAction::<X>::CloseCommWindow
                },
                WifiEvent::Commissioned(Ok(false)) => {
                    &&& *final(self) is Ble
                    &&& r == WifiAction::<X>::RunBle
                },
                WifiEvent::BleEnded(Ok(_)) => {
                    &&& *final(self) is Wifi
                    &&& r == WifiAction::<X>::RunWifi
                },
                WifiEvent::WindowClosed(Ok(_)) => {
                    &&& *final(self) is Wifi
                    &&& r == WifiAction::<X>::RunWifi
                },
                WifiEvent::WifiEnded(Ok(_)) => {
                    &&& *final(self) is Checking
                    &&& r == WifiAction::<X>::CheckCommissioned
                },
                WifiEvent::Commissioned(Err(e)) => {
                    &&& *final(self) is Failed
                    &&& r == WifiAction::<X>::Fail(e)
                },
                WifiEvent::BleEnded(Err(e)) => {
                    &&& *final(self) is Failed
                    &&& r == WifiAction::<X>::Fail(e)
                },
                WifiEvent::WindowClosed(Err(e)) => {
                    &&& *final(self) is Failed
                    &&& r == WifiAction::<X>::Fail(e)
                },
                WifiEvent::WifiEnded(Err(e)) => {
                    &&& *final(self) is Failed
                    &&& r == WifiAction::<X>::Fail(e)
                },
            },
            match *final(self) {
                RunWifi::Checking => r == WifiAction::<X>::CheckCommissioned,
                RunWifi::Ble => r == WifiAction::<X>::RunBle,
                RunWifi::ClosingWindow => r == WifiAction::<X>::CloseCommWindow,
                RunWifi::Wifi => r == WifiAction::<X>::RunWifi,
                RunWifi::Failed => r == WifiAction::<X>::Fail(failure(event)->0),
            },
    {
        let failed = match event {
            WifiEvent::Commissioned(Ok(commissioned)) => {
                if commissioned {
                    *self = RunWifi::ClosingWindow;
                    return WifiAction::CloseCommWindow;
                } else {
                    *self = RunWifi::Ble;
                    return WifiAction::RunBle;
                }
            },
            WifiEvent::BleEnded(Ok(())) => {
                *self = RunWifi::Wifi;
                return WifiAction::RunWifi;
            },
            WifiEvent::WindowClosed(Ok(())) => {
                *self = RunWifi::Wifi;
                return WifiAction::RunWifi;
            },
            WifiEvent::WifiEnded(Ok(())) => {
                *self = RunWifi::Checking;
                return WifiAction::CheckCommissioned;
            },
            WifiEvent::Commissioned(Err(e)) => e,
            WifiEvent::BleEnded(Err(e)) => e,
            WifiEvent::WindowClosed(Err(e)) => e,
            WifiEvent::WifiEnded(Err(e)) => e,
        };
        *self = RunWifi::Failed;
        WifiAction::Fail(failed)
    }

    /// The current step after `events`, one after another.
    pub open spec fn after<X>(events: Seq<WifiEvent<X>>) -> Self {
        if events.len() == 0 {
            RunWifi::Checking
        } else {
            Self::next(events.last())
        }
    }

    /// Each of `events` is the end of the step that those before it lead to.
    pub open spec fn can_happen<X>(events: Seq<WifiEvent<X>>) -> bool {
        forall|i: int|
            0 <= i < events.len() ==> #[trigger] Self::after(events.take(i)).awaits(events[i])
    }
}

/// How often BLE was started, less how often it has ended.
pub open spec fn ble_runs<X>(events: Seq<WifiEvent<X>>) -> int
    decreases events.len(),
{
    if events.len() == 0 {
        0
    } else {
        let started: int = if RunWifi::next(events.last()) is Ble { 1 } else { 0 };
        let ended: int = if events.last() is BleEnded { 1 } else { 0 };
        ble_runs(events.drop_last()) + started - ended
    }
}

/// How often Wifi was started, less how often it has ended.
pub open spec fn wifi_runs<X>(events: Seq<WifiEvent<X>>) -> int
    decreases events.len(),
{
    if events.len() == 0 {
        0
    } else {
        let started: int = if RunWifi::next(events.last()) is Wifi { 1 } else { 0 };
        let ended: int = if events.last() is WifiEnded { 1 } else { 0 };
        wifi_runs(events.drop_last()) + started - ended
    }
}

/// At any point in time, the radio is used either for BLE or for Wifi, but not for both, and by
/// each of them once at most. Once the run has failed, it is used for neither.
pub proof fn lemma_radio_is_not_shared<X>(events: Seq<WifiEvent<X>>)
    requires
        RunWifi::can_happen(events),
    ensures
        0 <= ble_runs(events),
        0 <= wifi_runs(events),
        ble_runs(events) + wifi_runs(events) <= 1,
        ble_runs(events) == 1 <==> RunWifi::after(events) is Ble,
        wifi_runs(events) == 1 <==> RunWifi::after(events) is Wifi,
    decreases events.len(),
{
    if events.len() > 0 {
        let before = events.drop_last();
        let n = events.len() - 1;
        assert forall|i: int| 0 <= i < before.len() implies #[trigger] RunWifi::after(
            before.take(i),
        ).awaits(before[i]) by {
            assert(RunWifi::after(events.take(i)).awaits(events[i]));
            assert(events.take(i) =~= before.take(i));
        }
        lemma_radio_is_not_shared(before);
        assert(RunWifi::after(events.take(n)).awaits(events[n]));
        assert(events.take(n) =~= before);
    }
}

/// Wifi runs only once BLE was run and has ended - and that only for a device that is not
/// commissioned - or, for a device that is, once the commissioning window was closed.
pub proof fn lemma_wifi_runs_after_ble_or_closed_window<X>(events: Seq<WifiEvent<X>>)
    requires
        RunWifi::can_happen(events),
        RunWifi::after(events) is Wifi,
    ensures
        events.len() >= 2,
        failure(events.last()) is None,
        ({
            let checked = events[events.len() - 2];
            let done = events[events.len() - 1];
            ||| checked == WifiEvent::<X>::Commissioned(Ok(false)) && done is BleEnded
            ||| checked == WifiEvent::<X>::Commissioned(Ok(true)) && done is WindowClosed
        }),
{
    let n = events.len() as int;
    assert(RunWifi::after(events.take(n - 1)).awaits(events[n - 1]));
    assert(events.take(n - 1).last() == events[n - 2]);
}

/// BLE runs only for a device that was just found not to be commissioned - at the very start, or
/// once Wifi has ended.
pub proof fn lemma_ble_runs_when_not_commissioned<X>(events: Seq<WifiEvent<X>>)
    requires
        RunWifi::can_happen(events),
        RunWifi::after(events) is Ble,
    ensures
        events.len() >= 1,
        events.last() == WifiEvent::<X>::Commissioned(Ok(false)),
        events.len() >= 2 ==> events[events.len() - 2] is WifiEnded,
{
    let n = events.len() as int;
    if n >= 2 {
        assert(RunWifi::after(events.take(n - 1)).awaits(events[n - 1]));
        assert(events.take(n - 1).last() == events[n - 2]);
    }
}

/// Running the wireless network goes on for as long as no step fails, and the first failure
/// ends it.
pub proof fn lemma_first_failure_ends_the_run<X>(events: Seq<WifiEvent<X>>)
    requires
        RunWifi::can_happen(events),
    ensures
        RunWifi::after(events) is Failed <==> events.len() > 0 && failure(events.last()) is Some,
        forall|i: int| 0 <= i < events.len() - 1 ==> failure(#[trigger] events[i]) is None,
{
    assert forall|i: int| 0 <= i < events.len() - 1 implies failure(
        #[trigger] events[i],
    ) is None by {
        assert(RunWifi::after(events.take(i + 1)).awaits(events[i + 1]));
        assert(events.take(i + 1).last() == events[i]);
    }
}

} // verus!
