//! Creating the device and its software resources.
//!
//! The framework calls the driver once for each device instance that is
//! added. The driver answers with a fixed series of framework calls, and
//! gives up at the first one that fails. That series is written here as a
//! machine: [`echo_device_create`] takes the stage reached and the status the
//! framework returned from the call made last, and names the next action.
//! Whoever runs the machine performs the action and comes back with the
//! framework's answer, until the action is [`DeviceCreateAction::Return`].

use vstd::prelude::*;
use crate::attributes::{inherited_attributes, ContextType, ObjectAttributes};
use crate::power::PowerCallback;
use crate::status::{is_success, nt_success, NtStatus};

verus! {

/// The routines that the driver registers for the power transitions of
/// self-managed I/O. A slot that holds nothing is left to the framework's
/// default, as is every callback for which this type has no slot.
#[derive(Clone, Copy, Debug, PartialEq, Eq)]
pub struct PnpPowerCallbacks {
    /// Called when the device is started for the first time.
    pub self_managed_io_init: Option<PowerCallback>,
    /// Called before the device leaves its working state.
    pub self_managed_io_suspend: Option<PowerCallback>,
    /// Called when the device returns to its working state.
    pub self_managed_io_restart: Option<PowerCallback>,
}

/// The device's context block.
#[derive(Clone, Copy, Debug, PartialEq, Eq)]
pub struct DeviceContext {
    pub private_device_data: u32,
}

/// One thing for the caller of [`echo_device_create`] to do.
#[derive(Clone, Copy, Debug, PartialEq, Eq)]
pub enum DeviceCreateAction {
    /// Register these power callbacks for the device to be created. The
    /// framework reports nothing.
    SetPnpPowerEventCallbacks(PnpPowerCallbacks),
    /// Set the attributes of every request that the device will receive. The
    /// framework reports nothing.
    SetRequestAttributes(ObjectAttributes),
    /// Create the device object with these attributes. The framework reports
    /// a status.
    CreateDevice(ObjectAttributes),
    /// Store this value in the new device's context block. Nothing is
    /// reported.
    InitializeContext(DeviceContext),
    /// Publish the device interface by which applications find the device.
    /// The framework reports a status.
    CreateDeviceInterface,
    /// Set up the device's I/O queues. The queue setup reports a status.
    InitializeQueue,
    /// Device creation is over: hand this status back to the framework.
    Return(NtStatus),
}

/// How far device creation has come. Each stage but the first and the last is
/// named after the action that was issued on entering it.
#[derive(Clone, Copy, Debug, PartialEq, Eq)]
pub enum DeviceCreateStage {
    /// Nothing has been done yet.
    Start,
    PowerCallbacksRegistered,
    RequestAttributesSet,
    /// The device object was asked for; its status decides how to go on.
    DeviceRequested,
    ContextInitialized,
    /// The device interface was asked for; its status decides how to go on.
    InterfaceRequested,
    /// Queue setup was asked for; its status is the result.
    QueueRequested,
    /// The result has been returned.
    Finished(NtStatus),
}

/// The power callbacks of this driver: one routine serves both the first
/// start and every restart, another the suspend.
pub open spec fn echo_pnp_power_callbacks() -> PnpPowerCallbacks {
    PnpPowerCallbacks {
        self_managed_io_init: Some(PowerCallback::SelfManagedIoStart),
        self_managed_io_suspend: Some(PowerCallback::SelfManagedIoSuspend),
        self_managed_io_restart: Some(PowerCallback::SelfManagedIoStart),
    }
}

/// The context block of a device that has just been created.
pub open spec fn fresh_device_context() -> DeviceContext {
    DeviceContext { private_device_data: 0 }
}

/// The transition of the machine: the stage entered and the action issued
/// when `reply` arrives in `stage`. Only the three stages that wait for a
/// status read `reply`.
pub open spec fn device_create_step(stage: DeviceCreateStage, reply: NtStatus) -> (
    DeviceCreateStage,
    DeviceCreateAction,
) {
    match stage {
        DeviceCreateStage::Start => (
            DeviceCreateStage::PowerCallbacksRegistered,
            DeviceCreateAction::SetPnpPowerEventCallbacks(echo_pnp_power_callbacks()),
        ),
        DeviceCreateStage::PowerCallbacksRegistered => (
            DeviceCreateStage::RequestAttributesSet,
            DeviceCreateAction::SetRequestAttributes(inherited_attributes(ContextType::Request)),
        ),
        DeviceCreateStage::RequestAttributesSet => (
            DeviceCreateStage::DeviceRequested,
            DeviceCreateAction::CreateDevice(inherited_attributes(ContextType::Device)),
        ),
        DeviceCreateStage::DeviceRequested => if is_success(reply) {
            (
                DeviceCreateStage::ContextInitialized,
                DeviceCreateAction::InitializeContext(fresh_device_context()),
            )
        } else {
            (DeviceCreateStage::Finished(reply), DeviceCreateAction::Return(reply))
        },
        DeviceCreateStage::ContextInitialized => (
            DeviceCreateStage::InterfaceRequested,
            DeviceCreateAction::CreateDeviceInterface,
        ),
        DeviceCreateStage::InterfaceRequested => if is_success(reply) {
            (DeviceCreateStage::QueueRequested, DeviceCreateAction::InitializeQueue)
        } else {
            (DeviceCreateStage::Finished(reply), DeviceCreateAction::Return(reply))
        },
        DeviceCreateStage::QueueRequested => (
            DeviceCreateStage::Finished(reply),
            DeviceCreateAction::Return(reply),
        ),
        DeviceCreateStage::Finished(status) => (
            DeviceCreateStage::Finished(status),
            DeviceCreateAction::Return(status),
        ),
    }
}

/// Builds the power callbacks of this driver.
pub fn pnp_power_callbacks() -> (callbacks: PnpPowerCallbacks)
    ensures
        callbacks == echo_pnp_power_callbacks(),
{
    PnpPowerCallbacks {
        self_managed_io_init: Some(PowerCallback::SelfManagedIoStart),
        self_managed_io_suspend: Some(PowerCallback::SelfManagedIoSuspend),
        self_managed_io_restart: Some(PowerCallback::SelfManagedIoStart),
    }
}

/// One step of device creation.
///
/// `stage` is the stage reached so far, [`DeviceCreateStage::Start`] on the
/// first call. `reply` is the status that the framework returned from the
/// action issued last; where that action reports nothing, and on the first
/// call, any value will do. The result is the stage to pass to the next call
/// and the action to perform before it.
///
/// The power callbacks and the request attributes are registered first, then
/// the device is created. If that fails, its status is returned at once.
/// Otherwise the device's context is cleared and the device interface
/// published; if that fails, its status is returned. Otherwise the queues
/// are set up, and whatever that reports is returned.
pub fn echo_device_create(stage: DeviceCreateStage, reply: NtStatus) -> (next: (
    DeviceCreateStage,
    DeviceCreateAction,
))
    ensures
        next == device_create_step(stage, reply),
{
    match stage {
        DeviceCreateStage::Start => (
            DeviceCreateStage::PowerCallbacksRegistered,
            DeviceCreateAction::SetPnpPowerEventCallbacks(pnp_power_callbacks()),
        ),
        DeviceCreateStage::PowerCallbacksRegistered => (
            DeviceCreateStage::RequestAttributesSet,
            DeviceCreateAction::SetRequestAttributes(
                ObjectAttributes::inherited(ContextType::Request),
            ),
        ),
        DeviceCreateStage::RequestAttributesSet => (
            DeviceCreateStage::DeviceRequested,
            DeviceCreateAction::CreateDevice(ObjectAttributes::inherited(ContextType::Device)),
        ),
        DeviceCreateStage::DeviceRequested => {
            if nt_success(reply) {
                (
                    DeviceCreateStage::ContextInitialized,
                    DeviceCreateAction::InitializeContext(
                        DeviceContext { private_device_data: 0 },
                    ),
                )
            } else {
                (DeviceCreateStage::Finished(reply), DeviceCreateAction::Return(reply))
            }
        },
        DeviceCreateStage::ContextInitialized => (
            DeviceCreateStage::InterfaceRequested,
            DeviceCreateAction::CreateDeviceInterface,
        ),
        DeviceCreateStage::InterfaceRequested => {
            if nt_success(reply) {
                (DeviceCreateStage::QueueRequested, DeviceCreateAction::InitializeQueue)
            } else {
                (DeviceCreateStage::Finished(reply), DeviceCreateAction::Return(reply))
            }
        },
        DeviceCreateStage::QueueRequested => (
            DeviceCreateStage::Finished(reply),
            DeviceCreateAction::Return(reply),
        ),
        DeviceCreateStage::Finished(status) => (
            DeviceCreateStage::Finished(status),
            DeviceCreateAction::Return(status),
        ),
    }
}

/// The statuses that the framework returns from the three calls of device
/// creation that report one.
#[derive(Clone, Copy, Debug, PartialEq, Eq)]
pub struct FrameworkReplies {
    /// The status of creating the device object.
    pub device: NtStatus,
    /// The status of publishing the device interface.
    pub interface: NtStatus,
    /// The status of setting up the queues.
    pub queue: NtStatus,
}

impl FrameworkReplies {
    /// The status that comes back from `action`. For an action that reports
    /// nothing the value is of no account.
    pub open spec fn reply_to(self, action: DeviceCreateAction) -> NtStatus {
        match action {
            DeviceCreateAction::CreateDevice(_) => self.device,
            DeviceCreateAction::CreateDeviceInterface => self.interface,
            DeviceCreateAction::InitializeQueue => self.queue,
            _ => 0,
        }
    }

    /// Whether all three calls succeed.
    pub open spec fn all_succeed(self) -> bool {
        is_success(self.device) && is_success(self.interface) && is_success(self.queue)
    }
}

/// The greatest number of actions that can still be issued from `stage`
/// before the result has been returned.
pub open spec fn steps_left(stage: DeviceCreateStage) -> nat {
    match stage {
        DeviceCreateStage::Start => 7,
        DeviceCreateStage::PowerCallbacksRegistered => 6,
        DeviceCreateStage::RequestAttributesSet => 5,
        DeviceCreateStage::DeviceRequested => 4,
        DeviceCreateStage::ContextInitialized => 3,
        DeviceCreateStage::InterfaceRequested => 2,
        DeviceCreateStage::QueueRequested => 1,
        DeviceCreateStage::Finished(_) => 0,
    }
}

/// The actions that the machine issues when it is run from `stage`, entered
/// with `reply`, against a framework that answers with `replies`: every
/// action up to the first `Return`, that one included.
pub open spec fn device_create_run(
    stage: DeviceCreateStage,
    reply: NtStatus,
    replies: FrameworkReplies,
) -> Seq<DeviceCreateAction>
    decreases steps_left(stage),
{
    let (next, action) = device_create_step(stage, reply);
    if action is Return {
        seq![action]
    } else {
        seq![action] + device_create_run(next, replies.reply_to(action), replies)
    }
}

/// The status of device creation as a whole: that of the first call that
/// fails, and that of the queue setup if neither of the earlier two fails.
pub open spec fn device_create_status(replies: FrameworkReplies) -> NtStatus {
    if !is_success(replies.device) {
        replies.device
    } else if !is_success(replies.interface) {
        replies.interface
    } else {
        replies.queue
    }
}

/// The actions of device creation as a whole, in order. Nothing is asked of
/// the framework after a call that failed.
pub open spec fn device_create_actions(replies: FrameworkReplies) -> Seq<DeviceCreateAction> {
    let prepare = seq![
        DeviceCreateAction::SetPnpPowerEventCallbacks(echo_pnp_power_callbacks()),
        DeviceCreateAction::SetRequestAttributes(inherited_attributes(ContextType::Request)),
        DeviceCreateAction::CreateDevice(inherited_attributes(ContextType::Device)),
    ];
    let publish = seq![
        DeviceCreateAction::InitializeContext(fresh_device_context()),
        DeviceCreateAction::CreateDeviceInterface,
    ];
    let outcome = DeviceCreateAction::Return(device_create_status(replies));
    if !is_success(replies.device) {
        prepare.push(outcome)
    } else if !is_success(replies.interface) {
        (prepare + publish).push(outcome)
    } else {
        (prepare + publish).push(DeviceCreateAction::InitializeQueue).push(outcome)
    }
}

/// Every step brings the machine closer to its end: as long as the result
/// has not been returned, a step leaves fewer steps to go, and the action is
/// `Return` exactly when the stage entered is `Finished`, with the same
/// status.
pub proof fn lemma_device_create_progress(stage: DeviceCreateStage, reply: NtStatus)
    ensures
        !(stage is Finished) ==> steps_left(device_create_step(stage, reply).0) < steps_left(
            stage,
        ),
        device_create_step(stage, reply).1 is Return <==> device_create_step(stage, reply).0
            is Finished,
        device_create_step(stage, reply).1 is Return ==> device_create_step(stage, reply).0
            == DeviceCreateStage::Finished(device_create_step(stage, reply).1->Return_0),
{
}

/// Once the result has been returned the machine stays where it is and
/// returns the same status again, whatever it is told.
pub proof fn lemma_device_create_finished(status: NtStatus, reply: NtStatus)
    ensures
        device_create_step(DeviceCreateStage::Finished(status), reply) == (
            DeviceCreateStage::Finished(status),
            DeviceCreateAction::Return(status),
        ),
{
}

/// Run from the start, the machine issues exactly the actions of
/// [`device_create_actions`], whatever it is told on the first call.
pub proof fn lemma_device_create_run(reply: NtStatus, replies: FrameworkReplies)
    ensures
        device_create_run(DeviceCreateStage::Start, reply, replies) == device_create_actions(
            replies,
        ),
{
    reveal_with_fuel(device_create_run, 8);
    assert(device_create_run(DeviceCreateStage::Start, reply, replies) =~= device_create_actions(
        replies,
    ));
}

/// Device creation reports success exactly when the device object, the
/// device interface and the queues were all set up with success, and then it
/// reports the status of the queue setup.
pub proof fn lemma_device_create_succeeds(replies: FrameworkReplies)
    ensures
        is_success(device_create_status(replies)) <==> replies.all_succeed(),
        replies.all_succeed() ==> device_create_status(replies) == replies.queue,
        device_create_actions(replies).last() == DeviceCreateAction::Return(
            device_create_status(replies),
        ),
{
}

} // verus!
