use matter_stack::ble::{BluerGattPeripheral, BluezGattPeripheral};
use matter_stack::endpoints::{RootCluster, SystemCluster};
use matter_stack::eth::{Eth, EthMatterStack, PreexistingEthernet};
use matter_stack::network::{Embedding, Network};
use matter_stack::persist::{MatterKvBlobStoreBuf, KV_BLOB_BUF_SIZE};
use matter_stack::stack::{
    FactoryReset, FactoryResetAction, RunAction, RunEvent, Startup, StartupAction, StartupEvent,
};
use matter_stack::tasks::{ethernet_task, wireless_run, EthernetAction, StackTask, TaskPlan};
use matter_stack::wireless::WirelessMatterStack;
use matter_stack::MatterStack;

type EthStack = EthMatterStack<64, ()>;
type BleStack = WirelessMatterStack<64, u8, ()>;

#[test]
fn buffer_is_handed_out_once_at_a_time() {
    let mut buf: MatterKvBlobStoreBuf<KV_BLOB_BUF_SIZE> = MatterKvBlobStoreBuf::new();
    let mut instance = buf.try_get().unwrap();
    assert!(buf.try_get().is_none());
    assert_eq!(instance.borrow().len(), KV_BLOB_BUF_SIZE);
    assert!(instance.borrow().iter().all(|b| *b == 0));
    instance.borrow_mut()[3] = 7;
    buf.put_back(instance);
    let instance = buf.try_get().unwrap();
    assert_eq!(&instance.borrow()[..5], &[0, 0, 0, 7, 0]);
    assert_eq!(KV_BLOB_BUF_SIZE, 4096);
}

#[test]
fn buffer_has_the_chosen_size() {
    let mut small: MatterKvBlobStoreBuf<1024> = MatterKvBlobStoreBuf::new();
    assert_eq!(small.try_get().unwrap().borrow().len(), 1024);
    let mut stack: MatterStack<16, 65536, Eth<()>> = MatterStack::new();
    let buf = stack.load();
    assert_eq!(buf.borrow().len(), 65536);
    stack.release(buf);
}

#[test]
fn stack_gives_the_handler_of_the_user() {
    let chain = EthStack::new().root_handler("software", &[0, 1, 2, 3, 4, 5, 6, 7]);
    assert_eq!(
        chain.dispatch(0, SystemCluster::SwDiag.id()),
        Some(&RootCluster::SwDiag { dataver: 1, sw_diag: "software" })
    );
    assert_eq!(chain.dispatch(0, SystemCluster::NetComm.id()), None);
}

#[test]
fn run_frees_the_memory_at_its_end() {
    let mut stack = EthStack::new();
    for _ in 0..3 {
        assert!(stack.is_idle());
        assert!(matches!(stack.run::<u8>(), RunAction::ResetTransport));
        assert!(!stack.is_idle());
        assert!(matches!(stack.run_step::<u8>(RunEvent::TransportReset(Ok(()))), RunAction::RunTasks));
        assert!(stack.has_room_for::<[u64; 8]>());
        assert_eq!(stack.pin_alloc(1u8, "first").offset(), 0);
        assert_eq!(stack.pin_alloc(2u64, "second").offset(), 8);
        assert!(!stack.has_room_for::<[u64; 8]>());
        assert!(matches!(stack.run_step::<u8>(RunEvent::TasksEnded(Err(5))), RunAction::Return(Err(5))));
    }
    assert!(stack.has_room_for::<[u64; 8]>());
}

#[test]
fn run_ends_when_the_transport_cannot_be_reset() {
    let mut stack = EthStack::new();
    stack.run::<u8>();
    assert!(matches!(stack.run_step::<u8>(RunEvent::TransportReset(Err(1))), RunAction::Return(Err(1))));
    assert!(stack.is_idle());
    stack.run::<u8>();
    stack.run_step::<u8>(RunEvent::TransportReset(Ok(())));
    assert!(matches!(stack.run_step::<u8>(RunEvent::TasksEnded(Ok(()))), RunAction::Return(Ok(()))));
}

#[test]
fn tasks_are_padded_from_the_address_of_the_memory() {
    let mut stack: EthMatterStack<64, ()> = MatterStack::at(1001);
    stack.run::<u8>();
    stack.run_step::<u8>(RunEvent::TransportReset(Ok(())));
    assert_eq!(stack.pin_alloc(1u64, "first").offset(), 7);
    assert_eq!(stack.pin_alloc((), "second").offset(), 15);
    stack.run_step::<u8>(RunEvent::TasksEnded(Ok(())));
    stack.move_to(1006);
    stack.run::<u8>();
    stack.run_step::<u8>(RunEvent::TransportReset(Ok(())));
    assert_eq!(stack.pin_alloc(1u64, "first").offset(), 2);
}

#[test]
fn ethernet_task_needs_a_generator() {
    match ethernet_task::<&str, u8>(Ok("rand")) {
        EthernetAction::RunTasks { rand, plan } => {
            assert_eq!(rand, "rand");
            assert_eq!(plan.tasks, TaskPlan::ethernet().tasks);
        }
        EthernetAction::Return(_) => panic!("the generator is there"),
    }
    assert!(matches!(ethernet_task::<&str, u8>(Err(3)), EthernetAction::Return(Err(3))));
}

#[test]
fn state_is_loaded_through_the_buffer() {
    let mut stack = EthStack::new();
    assert!(stack.has_store_buf());
    let mut buf = stack.load();
    buf.borrow_mut()[0] = 9;
    assert!(!stack.has_store_buf());
    stack.release(buf);
    assert_eq!(stack.reset().borrow()[..2], [9, 0]);
}

#[test]
fn startup_takes_the_buffer_for_loading() {
    let mut stack = EthStack::new();
    let mut buf = stack.load();
    buf.borrow_mut()[1] = 6;
    stack.release(buf);
    let (startup, buf) = stack.startup();
    assert_eq!(startup, Startup::Loading { icd: false });
    assert_eq!(buf.borrow().len(), KV_BLOB_BUF_SIZE);
    assert_eq!(buf.borrow()[..3], [0, 6, 0]);
    stack.release(buf);
    assert_eq!(stack.load().borrow()[..3], [0, 6, 0]);
}

#[test]
fn startup_opens_the_window_unless_commissioned() {
    let (mut startup, _) = EthStack::new().startup();
    assert!(matches!(startup.step::<u8>(StartupEvent::Loaded(Ok(()))), StartupAction::CheckCommissioned));
    assert!(matches!(startup.step::<u8>(StartupEvent::Commissioned(false)), StartupAction::OpenBasicCommWindow));
    assert!(matches!(startup.step::<u8>(StartupEvent::WindowOpened(Ok(()))), StartupAction::Return(Ok(()))));

    let mut startup = BleStack::new().startup(true);
    assert!(matches!(startup.step::<u8>(StartupEvent::Loaded(Ok(()))), StartupAction::LoadIcd));
    assert!(matches!(startup.step::<u8>(StartupEvent::IcdLoaded(Ok(()))), StartupAction::CheckCommissioned));
    assert!(matches!(startup.step::<u8>(StartupEvent::Commissioned(true)), StartupAction::Return(Ok(()))));
}

#[test]
fn startup_ends_with_the_first_failure() {
    let mut startup = Startup::new(true);
    assert!(matches!(startup.step::<u8>(StartupEvent::Loaded(Err(1))), StartupAction::Return(Err(1))));
    let mut startup = Startup::new(true);
    startup.step::<u8>(StartupEvent::Loaded(Ok(())));
    assert!(matches!(startup.step::<u8>(StartupEvent::IcdLoaded(Err(2))), StartupAction::Return(Err(2))));
    let mut startup = Startup::new(false);
    startup.step::<u8>(StartupEvent::Loaded(Ok(())));
    startup.step::<u8>(StartupEvent::Commissioned(false));
    assert!(matches!(startup.step::<u8>(StartupEvent::WindowOpened(Err(3))), StartupAction::Return(Err(3))));
}

#[test]
fn factory_reset_drops_everything_in_order() {
    let mut reset = BleStack::new().reset(true);
    assert!(matches!(reset.step::<u8>(Ok(())), FactoryResetAction::ResetIcd));
    assert!(matches!(reset.step::<u8>(Ok(())), FactoryResetAction::ResetInteractionModel));
    assert!(matches!(reset.step::<u8>(Ok(())), FactoryResetAction::Return(Ok(()))));
    assert_eq!(reset, FactoryReset::Ended);

    let mut reset = FactoryReset::new(false);
    assert!(matches!(reset.step::<u8>(Ok(())), FactoryResetAction::ResetInteractionModel));
    assert!(matches!(reset.step::<u8>(Err(4)), FactoryResetAction::Return(Err(4))));
}

#[test]
fn task_plans() {
    let eth = TaskPlan::ethernet();
    assert!(!eth.concurrent_connection);
    assert_eq!(eth.tasks, vec![
        StackTask::OperNet { interface: 0, btp: false },
        StackTask::OperMdns,
        StackTask::DataModel,
        StackTask::User,
    ]);
    let ble = TaskPlan::ble();
    assert!(!ble.concurrent_connection);
    assert_eq!(ble.tasks, vec![
        StackTask::Gatt,
        StackTask::BtpNet,
        StackTask::AwaitProvisioned,
        StackTask::AwaitWindowGone,
        StackTask::DataModel,
    ]);
    let wifi = TaskPlan::wifi();
    assert!(!wifi.concurrent_connection);
    assert_eq!(wifi.tasks, vec![
        StackTask::OperNet { interface: 0, btp: false },
        StackTask::OperMdns,
        StackTask::WirelessMgr,
        StackTask::DataModel,
        StackTask::User,
    ]);
    let coex = TaskPlan::coex();
    assert!(coex.concurrent_connection);
    assert_eq!(coex.tasks, vec![
        StackTask::GattWhileBleCommissionable,
        StackTask::OperNet { interface: 0, btp: true },
        StackTask::OperMdns,
        StackTask::DataModel,
        StackTask::User,
    ]);
    assert_eq!(wireless_run(), vec![StackTask::Network, StackTask::Persist]);
}

/// User data with a start value.
struct Counter(u32);

impl Embedding for Counter {
    fn init() -> Self {
        Counter(42)
    }
}

#[test]
fn networks_embed_user_data_and_tell_how_they_are_discovered() {
    let eth: EthMatterStack<16, Counter> = MatterStack::new();
    assert_eq!(eth.network().embedding().0, 42);
    assert_eq!(eth.network().discovery_capabilities().bits(), 4);
    let wireless: WirelessMatterStack<16, u8, Counter> = MatterStack::new();
    assert_eq!(wireless.network().embedding().0, 42);
    assert_eq!(wireless.network().discovery_capabilities().bits(), 2);
}

#[test]
fn preexisting_ethernet_hands_out_its_parts() {
    let mut eth = PreexistingEthernet::new("stack", 5u8, 7u32);
    {
        let (stack, netif, mdns) = eth.run();
        assert_eq!((*stack, *netif, *mdns), ("stack", 5, 7));
        *mdns = 8;
    }
    assert_eq!(*eth.run().2, 8);
}

#[test]
fn peripherals_keep_their_adapter() {
    assert_eq!(BluerGattPeripheral::new(Some("hci1")).adapter_name(), Some("hci1"));
    assert_eq!(BluerGattPeripheral::new(None).adapter_name(), None);
    let bus = 3u8;
    let peripheral = BluezGattPeripheral::new(&bus, Some("hci0"));
    assert_eq!(*peripheral.connection(), 3);
    assert_eq!(peripheral.adapter_name(), Some("hci0"));
}
