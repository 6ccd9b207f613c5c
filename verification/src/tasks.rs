//! The tasks that the stack runs side by side. As soon as one of them ends, the others are
//! stopped, and its outcome is that of all of them.
use vstd::prelude::*;

verus! {

/// A task of the stack.
#[derive(Debug, Clone, Copy, PartialEq, Eq, Structural)]
pub enum StackTask {
    /// The transport over the operational network
    OperNet {
        /// The index of the network interface
        interface: u32,
        /// Whether the BTP transport is used along with it
        btp: bool,
    },
    /// mDNS over the operational network
    OperMdns,
    /// The manager of the connection to the wireless network
    WirelessMgr,
    /// The data model, with the handlers of the user and of the stack
    DataModel,
    /// The task of the user
    User,
    /// The GATT peripheral
    Gatt,
    /// The GATT peripheral, while the device is commissionable over BLE
    GattWhileBleCommissionable,
    /// The transport over BTP
    BtpNet,
    /// Waiting for the network credentials to be handed over
    AwaitProvisioned,
    /// Waiting for the commissioning window to go away
    AwaitWindowGone,
    /// Running the network
    Network,
    /// Saving the state of the stack when it changes
    Persist,
}

/// The tasks of one phase of the stack.
#[derive(Debug)]
pub struct TaskPlan {
    /// Whether the device supports concurrent commissioning, as it tells the commissioner
    pub concurrent_connection: bool,
    /// The tasks; where several have ended at the same time, the first one counts
    pub tasks: Vec<StackTask>,
}

impl TaskPlan {
    /// The task needs the operational network.
    pub open spec fn on_oper_net(task: StackTask) -> bool {
        task is OperNet || task is OperMdns || task is WirelessMgr
    }

    /// The task needs BLE.
    pub open spec fn on_ble(task: StackTask) -> bool {
        task is Gatt || task is GattWhileBleCommissionable || task is BtpNet || (
        task matches StackTask::OperNet { btp, .. } && btp)
    }

    /// The operational network is used.
    pub open spec fn uses_oper_net(&self) -> bool {
        exists|i: int| 0 <= i < self.tasks@.len() && Self::on_oper_net(#[trigger] self.tasks@[i])
    }

    /// BLE is used.
    pub open spec fn uses_ble(&self) -> bool {
        exists|i: int| 0 <= i < self.tasks@.len() && Self::on_ble(#[trigger] self.tasks@[i])
    }

    /// The plan is sound: the device claims to support concurrent commissioning exactly if it
    /// uses BLE and the operational network at the same time, and the task of the user runs only
    /// while the operational network is up.
    pub open spec fn sound(&self) -> bool {
        &&& self.concurrent_connection <==> self.uses_ble() && self.uses_oper_net()
        &&& self.tasks@.contains(StackTask::User) ==> self.uses_oper_net()
    }

    /// These are the tasks for Ethernet.
    pub open spec fn is_ethernet(&self) -> bool {
        &&& !self.concurrent_connection
        &&& self.tasks@ == seq![
            StackTask::OperNet { interface: 0, btp: false },
            StackTask::OperMdns,
            StackTask::DataModel,
            StackTask::User,
        ]
    }

    /// Return the tasks for Ethernet.
    pub fn ethernet() -> (r: Self)
        ensures
            r.sound(),
            r.is_ethernet(),
            !r.concurrent_connection,
            r.tasks@ == seq![
                StackTask::OperNet { interface: 0, btp: false },
                StackTask::OperMdns,
                StackTask::DataModel,
                StackTask::User,
            ],
    {
        let r = TaskPlan {
            concurrent_connection: false,
            tasks: vec![
                StackTask::OperNet { interface: 0, btp: false },
                StackTask::OperMdns,
                StackTask::DataModel,
                StackTask::User,
            ],
        };
        assert(Self::on_oper_net(r.tasks@[0]));
        r
    }

    /// Return the tasks for BLE alone, for commissioning.
    pub fn ble() -> (r: Self)
        ensures
            r.sound(),
            !r.concurrent_connection,
            r.tasks@ == seq![
                StackTask::Gatt,
                StackTask::BtpNet,
                StackTask::AwaitProvisioned,
                StackTask::AwaitWindowGone,
                StackTask::DataModel,
            ],
    {
        TaskPlan {
            concurrent_connection: false,
            tasks: vec![
                StackTask::Gatt,
                StackTask::BtpNet,
                StackTask::AwaitProvisioned,
                StackTask::AwaitWindowGone,
                StackTask::DataModel,
            ],
        }
    }

    /// Return the tasks for Wifi alone.
    pub fn wifi() -> (r: Self)
        ensures
            r.sound(),
            !r.concurrent_connection,
            r.tasks@ == seq![
                StackTask::OperNet { interface: 0, btp: false },
                StackTask::OperMdns,
                StackTask::WirelessMgr,
                StackTask::DataModel,
                StackTask::User,
            ],
    {
        let r = TaskPlan {
            concurrent_connection: false,
            tasks: vec![
                StackTask::OperNet { interface: 0, btp: false },
                StackTask::OperMdns,
                StackTask::WirelessMgr,
                StackTask::DataModel,
                StackTask::User,
            ],
        };
        assert(Self::on_oper_net(r.tasks@[0]));
        r
    }

    /// Return the tasks for BLE and the wireless network at the same time.
    pub fn coex() -> (r: Self)
        ensures
            r.sound(),
            r.concurrent_connection,
            r.tasks@ == seq![
                StackTask::GattWhileBleCommissionable,
                StackTask::OperNet { interface: 0, btp: true },
                StackTask::OperMdns,
                StackTask::DataModel,
                StackTask::User,
            ],
    {
        let r = TaskPlan {
            concurrent_connection: true,
            tasks: vec![
                StackTask::GattWhileBleCommissionable,
                StackTask::OperNet { interface: 0, btp: true },
                StackTask::OperMdns,
                StackTask::DataModel,
                StackTask::User,
            ],
        };
        assert(Self::on_ble(r.tasks@[0]));
        assert(Self::on_oper_net(r.tasks@[1]));
        r
    }
}

/// What to do once the generator for the task over Ethernet was asked for.
#[derive(Debug)]
pub enum EthernetAction<R, X> {
    /// Run these tasks, with the generator for the data versions of the clusters
    RunTasks {
        /// The generator
        rand: R,
        /// The tasks
        plan: TaskPlan,
    },
    /// End with this outcome
    Return(Result<(), X>),
}

/// Start the task over Ethernet, given the weak random generator: without one, nothing is run.
pub fn ethernet_task<R, X>(weak_rand: Result<R, X>) -> (r: EthernetAction<R, X>)
    ensures
        match weak_rand {
            Ok(drawn) => r matches EthernetAction::RunTasks { rand, plan } && rand == drawn
                && plan.is_ethernet() && plan.sound() && !plan.concurrent_connection && plan.tasks@ == seq![
                StackTask::OperNet { interface: 0, btp: false },
                StackTask::OperMdns,
                StackTask::DataModel,
                StackTask::User,
            ],
            Err(e) => r == EthernetAction::<R, X>::Return(Err(e)),
        },
{
    match weak_rand {
        Ok(rand) => EthernetAction::RunTasks { rand, plan: TaskPlan::ethernet() },
        Err(e) => EthernetAction::Return(Err(e)),
    }
}

/// Return the tasks of a run over a wireless network.
pub fn wireless_run() -> (r: Vec<StackTask>)
    ensures
        r@ == seq![StackTask::Network, StackTask::Persist],
{
    vec![StackTask::Network, StackTask::Persist]
}

} // verus!
