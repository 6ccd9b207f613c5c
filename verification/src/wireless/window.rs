//! Waiting for the commissioning window to open or to close.
use vstd::prelude::*;

verus! {

/// How often the state of the commissioning window is read while waiting for it to change.
pub const POLL_INTERVAL_SECS: u64 = 2;

/// The administrator that opened a commissioning window over a CASE session.
#[derive(Debug, Clone, Copy, PartialEq, Eq, Structural)]
pub struct CommWindowOpener {
    /// The index of the fabric of the administrator
    pub fab_idx: u8,
    /// The vendor ID of the administrator
    pub vendor_id: u16,
}

/// Whether a commissioning window is open, and - if so - who opened it.
#[derive(Debug, Clone, Copy, PartialEq, Eq, Structural)]
pub enum CommWindowState {
    /// No commissioning window is open
    Closed,
    /// A commissioning window is open
    Open {
        /// The administrator that opened the window, or `None` when the device opened it itself,
        /// as it does for initial commissioning
        opener: Option<CommWindowOpener>,
    },
}

impl CommWindowState {
    /// A commissioning window is open.
    pub open spec fn open(self) -> bool {
        self is Open
    }

    /// A commissioning window is open that the device opened itself.
    pub open spec fn open_on_all_transports(self) -> bool {
        self matches CommWindowState::Open { opener } && opener is None
    }

    /// Return `true` if a commissioning window is open.
    pub fn is_open(&self) -> (r: bool)
        ensures
            r == self.open(),
            r <==> *self != CommWindowState::Closed,
    {
        match self {
            CommWindowState::Open { .. } => true,
            CommWindowState::Closed => false,
        }
    }

    /// Return `true` if a commissioning window is open and has to be advertised on every
    /// transport, rather than on the operational IP network alone.
    pub fn is_open_on_all_transports(&self) -> (r: bool)
        ensures
            r == self.open_on_all_transports(),
            r <==> *self == (CommWindowState::Open { opener: None }),
    {
        match self {
            CommWindowState::Open { opener: None } => true,
            _ => false,
        }
    }
}

/// A window is advertised on every transport exactly if the device has opened it itself: never one
/// that an administrator has opened over CASE, whoever that is.
pub proof fn lemma_own_windows_are_on_all_transports(opener: CommWindowOpener)
    ensures
        !(CommWindowState::Open { opener: Some(opener) }).open_on_all_transports(),
        (CommWindowState::Open { opener: None }).open_on_all_transports(),
        !CommWindowState::Closed.open_on_all_transports(),
        (CommWindowState::Open { opener: Some(opener) }).open(),
        (CommWindowState::Open { opener: None }).open(),
        !CommWindowState::Closed.open(),
{
}

/// What to do after the state of the commissioning window was read.
#[derive(Debug, Clone, Copy, PartialEq, Eq, Structural)]
pub enum CommWindowWait {
    /// The wait is over, with this state
    Done(CommWindowState),
    /// Read the state again after that many seconds
    PollAfter(u64),
}

/// Wait for `until` to accept the state of the commissioning window, which was just read.
///
/// The accepted state is handed back, so a caller that needs more than the predicate - typically
/// the opener of the window - does not have to read it a second time.
pub fn wait_comm_window<F>(until: F, state: CommWindowState) -> (r: CommWindowWait) where
    F: Fn(&CommWindowState) -> bool,

    requires
        call_requires(until, (&state,)),
    ensures
        match r {
            CommWindowWait::Done(s) => s == state && call_ensures(until, (&state,), true),
            CommWindowWait::PollAfter(secs) => secs == POLL_INTERVAL_SECS && call_ensures(
                until,
                (&state,),
                false,
            ),
        },
{
    if until(&state) {
        CommWindowWait::Done(state)
    } else {
        CommWindowWait::PollAfter(POLL_INTERVAL_SECS)
    }
}

/// Waiting for a commissioning window that has to be advertised on every transport to *appear* -
/// i.e. for the radio to be needed for BLE again.
///
/// A window that is already open on entry does not count. The non-concurrent BLE -> wireless
/// handover happens with the window still open - it is closed by `CommissioningComplete`, which
/// the commissioner sends over the operational network, after the handover - so treating the
/// current window as an event would bounce the radio straight back to BLE in the middle of the
/// commissioning it is there to finish. Hence: let the current window go away first, and only
/// then wait for the next one.
#[derive(Debug, Clone, Copy, PartialEq, Eq, Structural)]
pub enum WaitNextCommWindow {
    /// The window that was open on entry, if any, has not gone away yet
    AwaitGone,
    /// The next window has not appeared yet
    AwaitNext,
    /// The next window has appeared
    Appeared,
}

/// What to do while waiting for the next commissioning window.
#[derive(Debug, Clone, Copy, PartialEq, Eq, Structural)]
pub enum NextCommWindowAction {
    /// Read the state of the window again, at once
    Poll,
    /// Read the state of the window again after that many seconds
    PollAfter(u64),
    /// The next window is there
    Return,
}

impl WaitNextCommWindow {
    /// The wait after it has seen `state`.
    pub open spec fn next(self, state: CommWindowState) -> Self {
        match self {
            WaitNextCommWindow::AwaitGone if !state.open_on_all_transports() =>
                WaitNextCommWindow::AwaitNext,
            WaitNextCommWindow::AwaitNext if state.open_on_all_transports() =>
                WaitNextCommWindow::Appeared,
            _ => self,
        }
    }

    /// The wait after it has seen `states`, one after another.
    pub open spec fn after(states: Seq<CommWindowState>) -> Self
        decreases states.len(),
    {
        if states.len() == 0 {
            WaitNextCommWindow::AwaitGone
        } else {
            Self::after(states.drop_last()).next(states.last())
        }
    }

    /// Start waiting: the state of the window is to be read at once.
    pub fn new() -> (r: Self)
        ensures
            r == Self::after(Seq::empty()),
            r is AwaitGone,
    {
        WaitNextCommWindow::AwaitGone
    }

    /// Take note of the state of the window that was just read.
    pub fn step(&mut self, state: CommWindowState) -> (r: NextCommWindowAction)
        requires
            !(*old(self) is Appeared),
        ensures
            *final(self) == old(self).next(state),
            match *old(self) {
                WaitNextCommWindow::AwaitGone => if state == (CommWindowState::Open {
                    opener: None,
                }) {
                    &&& *final(self) is AwaitGone
                    &&& r == NextCommWindowAction::PollAfter(2)
                } else {
                    &&& *final(self) is AwaitNext
                    &&& r == NextCommWindowAction::Poll
                },
                _ => if state == (CommWindowState::Open { opener: None }) {
                    &&& *final(self) is Appeared
                    &&& r == NextCommWindowAction::Return
                } else {
                    &&& *final(self) is AwaitNext
                    &&& r == NextCommWindowAction::PollAfter(2)
                },
            },
            r == if *final(self) is Appeared {
                NextCommWindowAction::Return
            } else if *final(self) != *old(self) {
                NextCommWindowAction::Poll
            } else {
                NextCommWindowAction::PollAfter(POLL_INTERVAL_SECS)
            },
    {
        match self {
            WaitNextCommWindow::AwaitGone => {
                let gone = |s: &CommWindowState| -> (b: bool)
                    ensures
                        b == !s.open_on_all_transports(),
                    { !s.is_open_on_all_transports() };
                match wait_comm_window(gone, state) {
                    CommWindowWait::Done(_) => {
                        *self = WaitNextCommWindow::AwaitNext;
                        NextCommWindowAction::Poll
                    },
                    CommWindowWait::PollAfter(secs) => NextCommWindowAction::PollAfter(secs),
                }
            },
            _ => {
                let there = |s: &CommWindowState| -> (b: bool)
                    ensures
                        b == s.open_on_all_transports(),
                    { s.is_open_on_all_transports() };
                match wait_comm_window(there, state) {
                    CommWindowWait::Done(_) => {
                        *self = WaitNextCommWindow::Appeared;
                        NextCommWindowAction::Return
                    },
                    CommWindowWait::PollAfter(secs) => NextCommWindowAction::PollAfter(secs),
                }
            },
        }
    }
}

/// The next commissioning window has appeared exactly if a window is seen that has to be
/// advertised on every transport, and before that a state was seen without such a window.
///
/// In particular, a window that is open on entry never counts, for as long as it stays open.
pub proof fn lemma_window_open_on_entry_does_not_count(states: Seq<CommWindowState>)
    ensures
        WaitNextCommWindow::after(states) is Appeared <==> exists|i: int, j: int|
            0 <= i < j < states.len() && #[trigger] states[i] != (CommWindowState::Open {
                opener: None,
            }) && #[trigger] states[j] == (CommWindowState::Open { opener: None }),
        WaitNextCommWindow::after(states) is Appeared <==> exists|i: int, j: int|
            0 <= i < j < states.len() && !(#[trigger] states[i]).open_on_all_transports() && (
            #[trigger] states[j]).open_on_all_transports(),
{
    lemma_waited(states);
}

/// What the wait is still waiting for, after each series of states.
proof fn lemma_waited(states: Seq<CommWindowState>)
    ensures
        WaitNextCommWindow::after(states) is AwaitGone <==> forall|i: int|
            0 <= i < states.len() ==> (#[trigger] states[i]).open_on_all_transports(),
        WaitNextCommWindow::after(states) is Appeared <==> exists|i: int, j: int|
            0 <= i < j < states.len() && !(#[trigger] states[i]).open_on_all_transports() && (
            #[trigger] states[j]).open_on_all_transports(),
    decreases states.len(),
{
    if states.len() > 0 {
        let before = states.drop_last();
        let n = states.len() - 1;
        lemma_waited(before);
        assert(forall|i: int| 0 <= i < n ==> #[trigger] states[i] == before[i]);
        if WaitNextCommWindow::after(before) is Appeared {
            let (i, j) = choose|i: int, j: int|
                0 <= i < j < before.len() && !(#[trigger] before[i]).open_on_all_transports() && (
                #[trigger] before[j]).open_on_all_transports();
            assert(!states[i].open_on_all_transports() && states[j].open_on_all_transports());
        } else {
            if !(WaitNextCommWindow::after(before) is AwaitGone) {
                let i = choose|i: int|
                    0 <= i < before.len() && !(#[trigger] before[i]).open_on_all_transports();
                assert(!states[i].open_on_all_transports());
                assert(states[n] == states.last());
            }
        }
        if WaitNextCommWindow::after(states) is AwaitGone {
            assert forall|i: int| 0 <= i < states.len() implies (
            #[trigger] states[i]).open_on_all_transports() by {
                if i < n {
                    assert(before[i].open_on_all_transports());
                }
            }
        }
        if exists|i: int, j: int|
            0 <= i < j < states.len() && !(#[trigger] states[i]).open_on_all_transports() && (
            #[trigger] states[j]).open_on_all_transports() {
            let (i, j) = choose|i: int, j: int|
                0 <= i < j < states.len() && !(#[trigger] states[i]).open_on_all_transports() && (
                #[trigger] states[j]).open_on_all_transports();
            assert(!before[i].open_on_all_transports());
            if j < n {
                assert(before[j].open_on_all_transports());
            }
        }
    }
}

} // verus!
