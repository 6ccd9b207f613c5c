//! The Matter stack: its memory, and the order of its startup, its run and its reset.
use vstd::prelude::*;

use crate::bump::{Bump, BumpBox};
use crate::endpoints::{root_handler, RootHandler};
use crate::network::{Embedding, Network};
use crate::persist::{MatterKvBlobStoreBuf, MatterKvBlobStoreBufInstance};

verus! {

/// How far a run of the stack has got.
#[derive(Debug, Clone, Copy, PartialEq, Eq, Structural)]
pub enum RunPhase {
    /// The stack is not running
    Idle,
    /// The transport is being reset
    Starting,
    /// The tasks are running
    Running,
}

/// The end of a step of a run of the stack.
#[derive(Debug)]
pub enum RunEvent<X> {
    /// The transport was reset
    TransportReset(Result<(), X>),
    /// The tasks have ended, and all that they had allocated is gone
    TasksEnded(Result<(), X>),
}

/// The next step of a run of the stack.
#[derive(Debug)]
pub enum RunAction<X> {
    /// Reset the transport
    ResetTransport,
    /// Run the tasks
    RunTasks,
    /// End the run with this outcome
    Return(Result<(), X>),
}

/// The Matter stack over the network `N`, with `B` bytes of memory for the tasks of a run and a
/// buffer of `S` bytes for blobs.
///
/// It runs at most once at a time.
pub struct MatterStack<const B: usize, const S: usize, N> {
    network: N,
    bump: Bump<B>,
    store_buf: MatterKvBlobStoreBuf<S>,
    phase: RunPhase,
}

impl<const B: usize, const S: usize, N> MatterStack<B, S, N> {
    /// The network.
    pub closed spec fn net(&self) -> N {
        self.network
    }

    /// The memory for the tasks of a run.
    pub closed spec fn memory(&self) -> Bump<B> {
        self.bump
    }

    /// The buffer for blobs.
    pub closed spec fn store(&self) -> MatterKvBlobStoreBuf<S> {
        self.store_buf
    }

    /// How far a run has got.
    pub closed spec fn phase(&self) -> RunPhase {
        self.phase
    }

    /// The memory and the buffer are valid, and all the memory is free before the tasks run.
    pub open spec fn wf(&self) -> bool {
        &&& self.memory().wf()
        &&& self.store().wf()
        &&& !(self.phase() is Running) ==> self.memory().used() == 0
    }

    /// Create a new stack, which is not running, and whose memory is aligned for every type.
    pub fn new() -> (r: Self) where N: Network
        ensures
            r.wf(),
            r.phase() is Idle,
            r.memory().base() == 0,
            r.store().contents() == Some(Seq::<u8>::empty()),
            call_ensures(<N as Network>::init, (), r.net()),
            call_ensures(<N::Embedding as Embedding>::init, (), r.net().embedded()),
    {
        Self::at(0)
    }

    /// Create a new stack, which is not running, and whose memory starts at the address `base`.
    pub fn at(base: usize) -> (r: Self) where N: Network
        requires
            base + B <= usize::MAX,
        ensures
            r.wf(),
            r.phase() is Idle,
            r.memory().base() == base,
            r.store().contents() == Some(Seq::<u8>::empty()),
            call_ensures(<N as Network>::init, (), r.net()),
            call_ensures(<N::Embedding as Embedding>::init, (), r.net().embedded()),
    {
        MatterStack {
            network: N::init(),
            bump: Bump::at(base),
            store_buf: MatterKvBlobStoreBuf::new(),
            phase: RunPhase::Idle,
        }
    }

    /// Return the user-owned system handler for the root endpoint (Endpoint 0), which the user
    /// chains with the handlers of the application and hands to the stack.
    ///
    /// # Arguments:
    /// - `sw_diag`: The implementation of the software diagnostics.
    /// - `dataver`: The random initial data versions of the clusters, in the order in which the
    ///   clusters are chained.
    pub fn root_handler<D>(&self, sw_diag: D, dataver: &[u32; 8]) -> (r: RootHandler<D>)
        ensures
            crate::endpoints::serves_user_clusters(r, sw_diag, dataver@),
    {
        root_handler(sw_diag, dataver)
    }

    /// Return the network.
    pub fn network(&self) -> (r: &N)
        ensures
            *r == self.net(),
    {
        &self.network
    }

    /// Return the network, to be changed.
    pub fn network_mut(&mut self) -> (r: &mut N)
        requires
            old(self).wf(),
        ensures
            final(self).wf(),
            *r == old(self).net(),
            final(self).net() == *final(r),
            final(self).memory() == old(self).memory(),
            final(self).store() == old(self).store(),
            final(self).phase() == old(self).phase(),
    {
        &mut self.network
    }

    /// Return `true` if a run may start.
    pub fn is_idle(&self) -> (r: bool)
        ensures
            r == (self.phase() is Idle),
    {
        match self.phase {
            RunPhase::Idle => true,
            _ => false,
        }
    }

    /// Take note that the memory starts at the address `base` from now on.
    pub fn move_to(&mut self, base: usize)
        requires
            old(self).wf(),
            !(old(self).phase() is Running),
            base + B <= usize::MAX,
        ensures
            final(self).wf(),
            final(self).net() == old(self).net(),
            final(self).store() == old(self).store(),
            final(self).phase() == old(self).phase(),
            final(self).memory().base() == base,
            final(self).memory().used() == old(self).memory().used(),
    {
        self.bump.move_to(base);
    }

    /// Start a run of the stack. The first step is to reset the transport.
    pub fn run<X>(&mut self) -> (r: RunAction<X>)
        requires
            old(self).wf(),
            old(self).phase() is Idle,
        ensures
            final(self).wf(),
            final(self).net() == old(self).net(),
            final(self).store() == old(self).store(),
            final(self).memory() == old(self).memory(),
            final(self).phase() is Starting,
            r == RunAction::<X>::ResetTransport,
    {
        self.phase = RunPhase::Starting;
        RunAction::ResetTransport
    }

    /// Take note of the end of a step of the run, and decide on the next one.
    ///
    /// However the run ends, the memory is free again.
    pub fn run_step<X>(&mut self, event: RunEvent<X>) -> (r: RunAction<X>)
        requires
            old(self).wf(),
            event is TransportReset ==> old(self).phase() is Starting,
            event is TasksEnded ==> old(self).phase() is Running,
        ensures
            final(self).wf(),
            final(self).net() == old(self).net(),
            final(self).store() == old(self).store(),
            final(self).memory().base() == old(self).memory().base(),
            match event {
                RunEvent::TransportReset(Ok(_)) => {
                    &&& r == RunAction::<X>::RunTasks
                    &&& final(self).phase() is Running
                    &&& final(self).memory() == old(self).memory()
                },
                RunEvent::TransportReset(Err(e)) => {
                    &&& r == RunAction::<X>::Return(Err(e))
                    &&& final(self).phase() is Idle
                    &&& final(self).memory().used() == 0
                },
                RunEvent::TasksEnded(outcome) => {
                    &&& r == RunAction::<X>::Return(outcome)
                    &&& final(self).phase() is Idle
                    &&& final(self).memory().used() == 0
                },
            },
    {
        let outcome = match event {
            RunEvent::TransportReset(Ok(())) => {
                self.phase = RunPhase::Running;
                return RunAction::RunTasks;
            },
            RunEvent::TransportReset(Err(e)) => Err(e),
            RunEvent::TasksEnded(outcome) => outcome,
        };
        self.bump.reset();
        self.phase = RunPhase::Idle;
        RunAction::Return(outcome)
    }

    /// Return `true` if there is room in the memory for one more task.
    pub fn has_room_for<T>(&self) -> (r: bool)
        requires
            self.wf(),
        ensures
            r == (self.memory().next_start::<T>() + crate::bump::size::<T>() <= B),
    {
        self.bump.has_room_for::<T>()
    }

    /// Put a task of the run into the memory.
    pub fn pin_alloc<T>(&mut self, task: T, location: &str) -> (r: BumpBox<T>)
        requires
            old(self).wf(),
            old(self).phase() is Running,
            old(self).memory().next_start::<T>() + crate::bump::size::<T>() <= B,
        ensures
            final(self).wf(),
            final(self).net() == old(self).net(),
            final(self).store() == old(self).store(),
            final(self).phase() is Running,
            final(self).memory().base() == old(self).memory().base(),
            final(self).memory().used() == old(self).memory().next_start::<T>()
                + crate::bump::size::<T>(),
            r.value() == task,
            r.start() == old(self).memory().next_start::<T>(),
            old(self).memory().used() <= r.start(),
            r.start() + (vstd::layout::size_of::<T>() as int) == final(self).memory().used() <= B,
            0 < vstd::layout::size_of::<T>() ==> {
                &&& (old(self).memory().base() + r.start()) % (vstd::layout::align_of::<T>() as int) == 0
                &&& r.start() < old(self).memory().used() + (vstd::layout::align_of::<T>() as int)
            },
            vstd::layout::size_of::<T>() == 0 ==> r.start() == old(self).memory().used(),
    {
        self.bump.pin_alloc(task, location)
    }

    /// Return `true` if the buffer through which the persisted state is read and written can be
    /// taken.
    pub fn has_store_buf(&self) -> (r: bool)
        ensures
            r == (self.store().contents() is Some),
    {
        self.store_buf.is_available()
    }

    /// Take the buffer through which the persisted state is read and written.
    pub fn take_store_buf(&mut self) -> (r: MatterKvBlobStoreBufInstance)
        requires
            old(self).wf(),
            old(self).store().contents() is Some,
        ensures
            final(self).wf(),
            final(self).net() == old(self).net(),
            final(self).phase() == old(self).phase(),
            final(self).memory() == old(self).memory(),
            final(self).store().contents() is None,
            r@ == crate::persist::filled_up(old(self).store().contents()->0, S as nat),
    {
        self.store_buf.try_get().unwrap()
    }

    /// Give back the buffer that was taken.
    pub fn release(&mut self, buf: MatterKvBlobStoreBufInstance)
        requires
            old(self).wf(),
            old(self).store().contents() is None,
            buf@.len() == S,
        ensures
            final(self).wf(),
            final(self).net() == old(self).net(),
            final(self).phase() == old(self).phase(),
            final(self).memory() == old(self).memory(),
            final(self).store().contents() == Some(buf@),
    {
        self.store_buf.put_back(buf);
    }
}

/// The startup sequence of the stack: load the persisted state, and open the basic commissioning
/// window if the device is not commissioned yet.
#[derive(Debug, Clone, Copy, PartialEq, Eq, Structural)]
pub enum Startup {
    /// The persisted state is being loaded
    Loading {
        /// There is state for intermittently connected devices, too
        icd: bool,
    },
    /// The state for intermittently connected devices is being loaded
    LoadingIcd,
    /// Finding out whether the device is commissioned
    Checking,
    /// The basic commissioning window is being opened
    OpeningWindow,
    /// The sequence is over
    Ended,
}

/// The end of a step of the startup sequence.
#[derive(Debug)]
pub enum StartupEvent<X> {
    /// The persisted state was loaded
    Loaded(Result<(), X>),
    /// The state for intermittently connected devices was loaded
    IcdLoaded(Result<(), X>),
    /// It is known whether the device is commissioned
    Commissioned(bool),
    /// The basic commissioning window was opened
    WindowOpened(Result<(), X>),
}

/// The next step of the startup sequence.
#[derive(Debug)]
pub enum StartupAction<X> {
    /// Load the state for intermittently connected devices
    LoadIcd,
    /// Find out whether the device is commissioned
    CheckCommissioned,
    /// Open the basic commissioning window
    OpenBasicCommWindow,
    /// End the sequence with this outcome
    Return(Result<(), X>),
}

impl Startup {
    /// `event` is the end of the current step.
    pub open spec fn awaits<X>(self, event: StartupEvent<X>) -> bool {
        match event {
            StartupEvent::Loaded(_) => self is Loading,
            StartupEvent::IcdLoaded(_) => self is LoadingIcd,
            StartupEvent::Commissioned(_) => self is Checking,
            StartupEvent::WindowOpened(_) => self is OpeningWindow,
        }
    }

    /// What is to be done at the end of the current step.
    pub open spec fn action<X>(self, event: StartupEvent<X>) -> StartupAction<X> {
        match event {
            StartupEvent::Loaded(Err(e)) => StartupAction::Return(Err(e)),
            StartupEvent::Loaded(Ok(_)) => if self == (Startup::Loading { icd: true }) {
                StartupAction::LoadIcd
            } else {
                StartupAction::CheckCommissioned
            },
            StartupEvent::IcdLoaded(Err(e)) => StartupAction::Return(Err(e)),
            StartupEvent::IcdLoaded(Ok(_)) => StartupAction::CheckCommissioned,
            StartupEvent::Commissioned(true) => StartupAction::Return(Ok(())),
            StartupEvent::Commissioned(false) => StartupAction::OpenBasicCommWindow,
            StartupEvent::WindowOpened(outcome) => StartupAction::Return(outcome),
        }
    }

    /// The step that carries out `action`.
    pub open spec fn carrying_out<X>(action: StartupAction<X>) -> Self {
        match action {
            StartupAction::LoadIcd => Startup::LoadingIcd,
            StartupAction::CheckCommissioned => Startup::Checking,
            StartupAction::OpenBasicCommWindow => Startup::OpeningWindow,
            StartupAction::Return(_) => Startup::Ended,
        }
    }

    /// Start the sequence, with or without the state for intermittently connected devices. The
    /// first step is to load the persisted state.
    pub fn new(icd: bool) -> (r: Self)
        ensures
            r == (Startup::Loading { icd }),
    {
        Startup::Loading { icd }
    }

    /// Take note of the end of the current step, and decide on the next one.
    pub fn step<X>(&mut self, event: StartupEvent<X>) -> (r: StartupAction<X>)
        requires
            old(self).awaits(event),
        ensures
            r == old(self).action(event),
            *final(self) == Self::carrying_out(r),
            match event {
                StartupEvent::Loaded(Ok(_)) => if *old(self) == (Startup::Loading { icd: true }) {
                    &&& *final(self) is LoadingIcd
                    &&& r == StartupAction::<X>::LoadIcd
                } else {
                    &&& *final(self) is Checking
                    &&& r == StartupAction::<X>::CheckCommissioned
                },
                StartupEvent::IcdLoaded(Ok(_)) => {
                    &&& *final(self) is Checking
                    &&& r == StartupAction::<X>::CheckCommissioned
                },
                StartupEvent::Commissioned(false) => {
                    &&& *final(self) is OpeningWindow
                    &&& r == StartupAction::<X>::OpenBasicCommWindow
                },
                StartupEvent::Commissioned(true) => {
                    &&& *final(self) is Ended
                    &&& r == StartupAction::<X>::Return(Ok(()))
                },
                StartupEvent::Loaded(Err(e)) => {
                    &&& *final(self) is Ended
                    &&& r == StartupAction::<X>::Return(Err(e))
                },
                StartupEvent::IcdLoaded(Err(e)) => {
                    &&& *final(self) is Ended
                    &&& r == StartupAction::<X>::Return(Err(e))
                },
                StartupEvent::WindowOpened(outcome) => {
                    &&& *final(self) is Ended
                    &&& r == StartupAction::<X>::Return(outcome)
                },
            },
    {
        match event {
            StartupEvent::Loaded(Ok(())) => {
                if let Startup::Loading { icd: true } = self {
                    *self = Startup::LoadingIcd;
                    StartupAction::LoadIcd
                } else {
                    *self = Startup::Checking;
                    StartupAction::CheckCommissioned
                }
            },
            StartupEvent::IcdLoaded(Ok(())) => {
                *self = Startup::Checking;
                StartupAction::CheckCommissioned
            },
            StartupEvent::Commissioned(commissioned) => {
                if commissioned {
                    *self = Startup::Ended;
                    StartupAction::Return(Ok(()))
                } else {
                    *self = Startup::OpeningWindow;
                    StartupAction::OpenBasicCommWindow
                }
            },
            StartupEvent::Loaded(outcome) => {
                *self = Startup::Ended;
                StartupAction::Return(outcome)
            },
            StartupEvent::IcdLoaded(outcome) => {
                *self = Startup::Ended;
                StartupAction::Return(outcome)
            },
            StartupEvent::WindowOpened(outcome) => {
                *self = Startup::Ended;
                StartupAction::Return(outcome)
            },
        }
    }
}

impl Startup {
    /// The current step after `events`, one after another.
    pub open spec fn after<X>(icd: bool, events: Seq<StartupEvent<X>>) -> Self
        decreases events.len(),
    {
        if events.len() == 0 {
            Startup::Loading { icd }
        } else {
            Self::carrying_out(Self::after(icd, events.drop_last()).action(events.last()))
        }
    }

    /// Each of `events` is the end of the step that those before it lead to.
    pub open spec fn can_happen<X>(icd: bool, events: Seq<StartupEvent<X>>) -> bool
        decreases events.len(),
    {
        events.len() > 0 ==> {
            &&& Self::can_happen(icd, events.drop_last())
            &&& Self::after(icd, events.drop_last()).awaits(events.last())
        }
    }
}

/// The step of the startup sequence that `event` ends has succeeded.
pub open spec fn succeeded<X>(event: StartupEvent<X>) -> bool {
    match event {
        StartupEvent::Loaded(result) => result is Ok,
        StartupEvent::IcdLoaded(result) => result is Ok,
        StartupEvent::Commissioned(_) => true,
        StartupEvent::WindowOpened(result) => result is Ok,
    }
}

/// The startup sequence finds out whether the device is commissioned only once the persisted
/// state was loaded, and it opens the window exactly if the device is not commissioned: where it
/// has ended with success, it has gone through these steps and no others.
pub proof fn lemma_startup_opens_window_unless_commissioned<X>(
    icd: bool,
    events: Seq<StartupEvent<X>>,
)
    requires
        Startup::can_happen(icd, events),
        Startup::after(icd, events) is Ended,
        succeeded(events.last()),
    ensures
        ({
            let loads: int = if icd { 2 } else { 1 };
            &&& events.len() > loads
            &&& events[0] is Loaded
            &&& icd ==> events[1] is IcdLoaded
            &&& forall|i: int| 0 <= i < events.len() ==> succeeded(#[trigger] events[i])
            &&& {
                ||| events.len() == loads + 1 && events[loads] == StartupEvent::<X>::Commissioned(true)
                ||| events.len() == loads + 2 && events[loads] == StartupEvent::<X>::Commissioned(
                    false,
                ) && events[loads + 1] is WindowOpened
            }
        }),
{
    lemma_startup_steps(icd, events.drop_last());
}

/// The steps that lead to each step of the startup sequence.
proof fn lemma_startup_steps<X>(icd: bool, events: Seq<StartupEvent<X>>)
    requires
        Startup::can_happen(icd, events),
    ensures
        ({
            let loads: int = if icd { 2 } else { 1 };
            let step = Startup::after(icd, events);
            &&& step is Loading ==> events.len() == 0 && step->icd == icd
            &&& step is LoadingIcd ==> icd && events.len() == 1
            &&& step is Checking ==> events.len() == loads
            &&& step is OpeningWindow ==> events.len() == loads + 1 && events[loads]
                == StartupEvent::<X>::Commissioned(false)
            &&& !(step is Ended) ==> {
                &&& events.len() > 0 ==> events[0] is Loaded
                &&& icd && events.len() > 1 ==> events[1] is IcdLoaded
                &&& forall|i: int| 0 <= i < events.len() ==> succeeded(#[trigger] events[i])
            }
        }),
    decreases events.len(),
{
    if events.len() > 0 {
        let before = events.drop_last();
        lemma_startup_steps(icd, before);
        assert(forall|i: int| 0 <= i < before.len() ==> #[trigger] events[i] == before[i]);
    }
}

/// The reset of a wireless device to the factory defaults: drop the fabrics and the basic
/// settings, then the state for intermittently connected devices, then the events counter and the
/// stored networks.
#[derive(Debug, Clone, Copy, PartialEq, Eq, Structural)]
pub enum FactoryReset {
    /// The fabrics and the basic settings are being dropped
    Fabrics {
        /// There is state for intermittently connected devices, too
        icd: bool,
    },
    /// The state for intermittently connected devices is being dropped
    Icd,
    /// The events counter and the stored networks are being dropped
    InteractionModel,
    /// The reset is over
    Ended,
}

/// The next step of a reset.
#[derive(Debug)]
pub enum FactoryResetAction<X> {
    /// Drop the state for intermittently connected devices
    ResetIcd,
    /// Drop the events counter and the stored networks
    ResetInteractionModel,
    /// End the reset with this outcome
    Return(Result<(), X>),
}

impl FactoryReset {
    /// The step that follows this one, if it succeeds.
    pub open spec fn next(self) -> Self {
        match self {
            FactoryReset::Fabrics { icd: true } => FactoryReset::Icd,
            FactoryReset::Fabrics { icd: false } => FactoryReset::InteractionModel,
            FactoryReset::Icd => FactoryReset::InteractionModel,
            _ => FactoryReset::Ended,
        }
    }

    /// Start the reset, with or without the state for intermittently connected devices. The first
    /// step is to drop the fabrics and the basic settings.
    pub fn new(icd: bool) -> (r: Self)
        ensures
            r == (FactoryReset::Fabrics { icd }),
    {
        FactoryReset::Fabrics { icd }
    }

    /// Take note of the end of the current step, and decide on the next one: the first failure
    /// ends the reset.
    pub fn step<X>(&mut self, done: Result<(), X>) -> (r: FactoryResetAction<X>)
        requires
            !(*old(self) is Ended),
        ensures
            done is Err ==> *final(self) is Ended && r == FactoryResetAction::<X>::Return(done),
            done is Ok ==> match *old(self) {
                FactoryReset::Fabrics { icd: true } => {
                    &&& *final(self) is Icd
                    &&& r == FactoryResetAction::<X>::ResetIcd
                },
                FactoryReset::Fabrics { icd: false } => {
                    &&& *final(self) is InteractionModel
                    &&& r == FactoryResetAction::<X>::ResetInteractionModel
                },
                FactoryReset::Icd => {
                    &&& *final(self) is InteractionModel
                    &&& r == FactoryResetAction::<X>::ResetInteractionModel
                },
                _ => {
                    &&& *final(self) is Ended
                    &&& r == FactoryResetAction::<X>::Return(Ok(()))
                },
            },
            done is Ok ==> *final(self) == old(self).next() && match *final(self) {
                FactoryReset::Icd => r == FactoryResetAction::<X>::ResetIcd,
                FactoryReset::InteractionModel => r == FactoryResetAction::<
                    X,
                >::ResetInteractionModel,
                _ => r == FactoryResetAction::<X>::Return(Ok(())),
            },
    {
        match done {
            Err(e) => {
                *self = FactoryReset::Ended;
                FactoryResetAction::Return(Err(e))
            },
            Ok(()) => match self {
                FactoryReset::Fabrics { icd: true } => {
                    *self = FactoryReset::Icd;
                    FactoryResetAction::ResetIcd
                },
                FactoryReset::Fabrics { icd: false } => {
                    *self = FactoryReset::InteractionModel;
                    FactoryResetAction::ResetInteractionModel
                },
                FactoryReset::Icd => {
                    *self = FactoryReset::InteractionModel;
                    FactoryResetAction::ResetInteractionModel
                },
                _ => {
                    *self = FactoryReset::Ended;
                    FactoryResetAction::Return(Ok(()))
                },
            },
        }
    }
}

impl FactoryReset {
    /// The current step after the first steps have ended as in `done`.
    pub open spec fn after<X>(icd: bool, done: Seq<Result<(), X>>) -> Self
        decreases done.len(),
    {
        if done.len() == 0 {
            FactoryReset::Fabrics { icd }
        } else if done.last() is Err {
            FactoryReset::Ended
        } else {
            Self::after(icd, done.drop_last()).next()
        }
    }
}

/// A reset that ends with success has dropped everything: the fabrics and the basic settings, the
/// state for intermittently connected devices where there is any, and the events counter and the
/// stored networks, in this order.
pub proof fn lemma_reset_drops_everything<X>(icd: bool, done: Seq<Result<(), X>>)
    requires
        forall|i: int| 0 <= i < done.len() ==> #[trigger] done[i] is Ok,
    ensures
        ({
            let steps: int = if icd { 3 } else { 2 };
            FactoryReset::after(icd, done) is Ended <==> done.len() >= steps
        }),
        done.len() == 1 ==> FactoryReset::after(icd, done) == if icd {
            FactoryReset::Icd
        } else {
            FactoryReset::InteractionModel
        },
        icd && done.len() == 2 ==> FactoryReset::after(icd, done) is InteractionModel,
    decreases done.len(),
{
    if done.len() > 0 {
        let before = done.drop_last();
        assert(forall|i: int| 0 <= i < before.len() ==> #[trigger] before[i] == done[i]);
        lemma_reset_drops_everything(icd, before);
        assert(done.last() == done[done.len() - 1]);
        if done.len() > 1 {
            assert(before.len() == 1 || before.len() >= 2);
        }
    }
}

} // verus!
