use rusty_mouse::attributes::{
    ContextType, ExecutionLevel, ObjectAttributes, SynchronizationScope,
};
use rusty_mouse::device::{
    echo_device_create, pnp_power_callbacks, DeviceContext, DeviceCreateAction, DeviceCreateStage,
    FrameworkReplies, PnpPowerCallbacks,
};
use rusty_mouse::power::PowerCallback;
use rusty_mouse::status::{nt_success, NtStatus};

const STATUS_UNSUCCESSFUL: NtStatus = -1073741823;
const STATUS_INSUFFICIENT_RESOURCES: NtStatus = -1073741670;
const STATUS_OBJECT_NAME_COLLISION: NtStatus = -1073741771;

fn callbacks() -> PnpPowerCallbacks {
    PnpPowerCallbacks {
        self_managed_io_init: Some(PowerCallback::SelfManagedIoStart),
        self_managed_io_suspend: Some(PowerCallback::SelfManagedIoSuspend),
        self_managed_io_restart: Some(PowerCallback::SelfManagedIoStart),
    }
}

fn attributes(context: ContextType) -> ObjectAttributes {
    ObjectAttributes {
        execution_level: ExecutionLevel::InheritFromParent,
        synchronization_scope: SynchronizationScope::InheritFromParent,
        context,
    }
}

fn prepare() -> Vec<DeviceCreateAction> {
    vec![
        DeviceCreateAction::SetPnpPowerEventCallbacks(callbacks()),
        DeviceCreateAction::SetRequestAttributes(attributes(ContextType::Request)),
        DeviceCreateAction::CreateDevice(attributes(ContextType::Device)),
    ]
}

fn publish() -> Vec<DeviceCreateAction> {
    vec![
        DeviceCreateAction::InitializeContext(DeviceContext { private_device_data: 0 }),
        DeviceCreateAction::CreateDeviceInterface,
    ]
}

// Runs device creation against a framework that answers the three calls
// that report a status with `replies`, and every other call with `other`;
// gives the actions issued and the status returned.
fn create_device(
    first: NtStatus,
    other: NtStatus,
    replies: FrameworkReplies,
) -> (Vec<DeviceCreateAction>, NtStatus) {
    let mut actions = Vec::new();
    let mut stage = DeviceCreateStage::Start;
    let mut reply = first;
    for _ in 0..16 {
        let (next, action) = echo_device_create(stage, reply);
        actions.push(action);
        stage = next;
        reply = match action {
            DeviceCreateAction::CreateDevice(_) => replies.device,
            DeviceCreateAction::CreateDeviceInterface => replies.interface,
            DeviceCreateAction::InitializeQueue => replies.queue,
            DeviceCreateAction::Return(status) => return (actions, status),
            _ => other,
        };
    }
    panic!("device creation did not return");
}

#[test]
fn inherited_attributes_take_everything_from_the_parent() {
    assert_eq!(ObjectAttributes::inherited(ContextType::Request), attributes(ContextType::Request));
    assert_eq!(ObjectAttributes::inherited(ContextType::Device), attributes(ContextType::Device));
    assert_ne!(
        ObjectAttributes::inherited(ContextType::Device),
        ObjectAttributes::inherited(ContextType::Request)
    );
}

#[test]
fn start_routine_serves_init_and_restart() {
    let registered = pnp_power_callbacks();
    assert_eq!(registered, callbacks());
    assert_eq!(registered.self_managed_io_init, registered.self_managed_io_restart);
    assert_eq!(registered.self_managed_io_init, Some(PowerCallback::SelfManagedIoStart));
    assert_eq!(registered.self_managed_io_suspend, Some(PowerCallback::SelfManagedIoSuspend));
}

#[test]
fn device_creation_with_every_call_succeeding() {
    let replies = FrameworkReplies { device: 0, interface: 0, queue: 0 };
    let (actions, status) = create_device(0, 0, replies);
    let mut expected = prepare();
    expected.extend(publish());
    expected.push(DeviceCreateAction::InitializeQueue);
    expected.push(DeviceCreateAction::Return(0));
    assert_eq!(actions, expected);
    assert_eq!(status, 0);
}

#[test]
fn device_creation_stops_when_the_device_fails() {
    let replies = FrameworkReplies { device: STATUS_INSUFFICIENT_RESOURCES, interface: 0, queue: 0 };
    let (actions, status) = create_device(0, 0, replies);
    let mut expected = prepare();
    expected.push(DeviceCreateAction::Return(STATUS_INSUFFICIENT_RESOURCES));
    assert_eq!(actions, expected);
    assert_eq!(status, STATUS_INSUFFICIENT_RESOURCES);
}

#[test]
fn device_creation_stops_when_the_interface_fails() {
    let replies = FrameworkReplies { device: 0, interface: STATUS_OBJECT_NAME_COLLISION, queue: 0 };
    let (actions, status) = create_device(0, 0, replies);
    let mut expected = prepare();
    expected.extend(publish());
    expected.push(DeviceCreateAction::Return(STATUS_OBJECT_NAME_COLLISION));
    assert_eq!(actions, expected);
    assert_eq!(status, STATUS_OBJECT_NAME_COLLISION);
}

#[test]
fn device_creation_returns_what_the_queue_setup_reports() {
    let statuses: Vec<NtStatus> = vec![0, 5, 0x4000_0000, STATUS_UNSUCCESSFUL, -1, NtStatus::MIN, NtStatus::MAX];
    for queue in statuses {
        let replies = FrameworkReplies { device: 0, interface: 0, queue };
        let (actions, status) = create_device(0, 0, replies);
        assert_eq!(status, queue);
        assert_eq!(actions.len(), 7);
        assert_eq!(actions[5], DeviceCreateAction::InitializeQueue);
        assert_eq!(actions[6], DeviceCreateAction::Return(queue));
    }
}

#[test]
fn device_creation_reports_the_first_failure() {
    let replies = FrameworkReplies {
        device: STATUS_INSUFFICIENT_RESOURCES,
        interface: STATUS_OBJECT_NAME_COLLISION,
        queue: STATUS_UNSUCCESSFUL,
    };
    assert_eq!(create_device(0, 0, replies).1, STATUS_INSUFFICIENT_RESOURCES);
    let replies = FrameworkReplies {
        device: 0,
        interface: STATUS_OBJECT_NAME_COLLISION,
        queue: STATUS_UNSUCCESSFUL,
    };
    assert_eq!(create_device(0, 0, replies).1, STATUS_OBJECT_NAME_COLLISION);
}

#[test]
fn device_creation_goes_on_after_informational_statuses() {
    let replies = FrameworkReplies { device: 1, interface: 0x4000_0000, queue: 2 };
    let (actions, status) = create_device(0, 0, replies);
    assert_eq!(actions.len(), 7);
    assert_eq!(status, 2);
}

#[test]
fn device_creation_succeeds_only_if_every_call_does() {
    let samples: Vec<NtStatus> = vec![0, 3, -1, STATUS_UNSUCCESSFUL];
    for &device in &samples {
        for &interface in &samples {
            for &queue in &samples {
                let replies = FrameworkReplies { device, interface, queue };
                let (actions, status) = create_device(0, 0, replies);
                let all = nt_success(device) && nt_success(interface) && nt_success(queue);
                assert_eq!(nt_success(status), all);
                assert!(actions.len() <= 7);
                if all {
                    assert_eq!(status, queue);
                }
            }
        }
    }
}

#[test]
fn device_creation_reads_no_reply_where_none_is_due() {
    let replies = FrameworkReplies { device: 0, interface: 0, queue: 9 };
    let quiet = create_device(0, 0, replies);
    assert_eq!(create_device(STATUS_UNSUCCESSFUL, 0, replies), quiet);
    assert_eq!(create_device(0, STATUS_UNSUCCESSFUL, replies), quiet);
    assert_eq!(create_device(-1, NtStatus::MIN, replies), quiet);
}

#[test]
fn device_creation_step_by_step() {
    let (stage, action) = echo_device_create(DeviceCreateStage::Start, 0);
    assert_eq!(stage, DeviceCreateStage::PowerCallbacksRegistered);
    assert_eq!(action, DeviceCreateAction::SetPnpPowerEventCallbacks(callbacks()));
    let (stage, action) = echo_device_create(stage, 0);
    assert_eq!(stage, DeviceCreateStage::RequestAttributesSet);
    assert_eq!(action, DeviceCreateAction::SetRequestAttributes(attributes(ContextType::Request)));
    let (stage, action) = echo_device_create(stage, 0);
    assert_eq!(stage, DeviceCreateStage::DeviceRequested);
    assert_eq!(action, DeviceCreateAction::CreateDevice(attributes(ContextType::Device)));
    let (stage, action) = echo_device_create(stage, 0);
    assert_eq!(stage, DeviceCreateStage::ContextInitialized);
    assert_eq!(
        action,
        DeviceCreateAction::InitializeContext(DeviceContext { private_device_data: 0 })
    );
    let (stage, action) = echo_device_create(stage, 0);
    assert_eq!(stage, DeviceCreateStage::InterfaceRequested);
    assert_eq!(action, DeviceCreateAction::CreateDeviceInterface);
    let (stage, action) = echo_device_create(stage, 0);
    assert_eq!(stage, DeviceCreateStage::QueueRequested);
    assert_eq!(action, DeviceCreateAction::InitializeQueue);
    let (stage, action) = echo_device_create(stage, 0);
    assert_eq!(stage, DeviceCreateStage::Finished(0));
    assert_eq!(action, DeviceCreateAction::Return(0));
}

#[test]
fn device_creation_finished_stage_repeats_its_status() {
    let (stage, action) = echo_device_create(DeviceCreateStage::DeviceRequested, -1);
    assert_eq!(stage, DeviceCreateStage::Finished(-1));
    assert_eq!(action, DeviceCreateAction::Return(-1));
    let (again, same) = echo_device_create(stage, 0);
    assert_eq!(again, DeviceCreateStage::Finished(-1));
    assert_eq!(same, DeviceCreateAction::Return(-1));
}
