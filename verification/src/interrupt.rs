//! Binding the device's interrupt to the driver's service routine.
//!
//! [`echo_interrupt_initialize`] is a machine of the same shape as device
//! creation, with a single framework call in it: it asks for an interrupt
//! object whose service routine is [`echo_evt_interrupt_isr`], and returns
//! the framework's status as it came.

use vstd::prelude::*;
use crate::attributes::ObjectAttributes;
use crate::status::NtStatus;

verus! {

/// What an interrupt service routine returns when the interrupt was raised
/// by its own device.
pub const INTERRUPT_CLAIMED: u8 = 1;

/// A routine of the driver that the framework calls for an interrupt.
#[derive(Clone, Copy, Debug, PartialEq, Eq)]
pub enum InterruptCallback {
    /// [`echo_evt_interrupt_isr`].
    Isr,
}

/// The configuration of an interrupt object. A slot that holds nothing is
/// left to the framework's default, as is every setting for which this type
/// has no slot.
#[derive(Clone, Copy, Debug, PartialEq, Eq)]
pub struct InterruptConfig {
    /// Called at device interrupt level when the interrupt is raised.
    pub evt_interrupt_isr: Option<InterruptCallback>,
}

/// One thing for the caller of [`echo_interrupt_initialize`] to do.
#[derive(Clone, Copy, Debug, PartialEq, Eq)]
pub enum InterruptInitAction {
    /// Create an interrupt object for the device. Without `attributes` the
    /// object gets the framework's defaults and no context block. The
    /// framework reports a status.
    CreateInterrupt { config: InterruptConfig, attributes: Option<ObjectAttributes> },
    /// Initialization is over: hand this status back to the caller.
    Return(NtStatus),
}

/// How far interrupt initialization has come.
#[derive(Clone, Copy, Debug, PartialEq, Eq)]
pub enum InterruptInitStage {
    /// Nothing has been done yet.
    Start,
    /// The interrupt object was asked for; its status is the result.
    InterruptRequested,
    /// The result has been returned.
    Finished(NtStatus),
}

/// The interrupt configuration of this driver: a service routine and
/// nothing else.
pub open spec fn echo_interrupt_config() -> InterruptConfig {
    InterruptConfig { evt_interrupt_isr: Some(InterruptCallback::Isr) }
}

/// The transition of the machine: the stage entered and the action issued
/// when `reply` arrives in `stage`. The first stage does not read `reply`.
pub open spec fn interrupt_initialize_step(stage: InterruptInitStage, reply: NtStatus) -> (
    InterruptInitStage,
    InterruptInitAction,
) {
    match stage {
        InterruptInitStage::Start => (
            InterruptInitStage::InterruptRequested,
            InterruptInitAction::CreateInterrupt {
                config: echo_interrupt_config(),
                attributes: None,
            },
        ),
        InterruptInitStage::InterruptRequested => (
            InterruptInitStage::Finished(reply),
            InterruptInitAction::Return(reply),
        ),
        InterruptInitStage::Finished(status) => (
            InterruptInitStage::Finished(status),
            InterruptInitAction::Return(status),
        ),
    }
}

/// One step of interrupt initialization.
///
/// `stage` is the stage reached so far, [`InterruptInitStage::Start`] on the
/// first call, where `reply` may be any value; on the second call `reply` is
/// the status that the framework returned for the interrupt object. The
/// result is the stage to pass to the next call and the action to perform
/// before it.
pub fn echo_interrupt_initialize(stage: InterruptInitStage, reply: NtStatus) -> (next: (
    InterruptInitStage,
    InterruptInitAction,
))
    ensures
        next == interrupt_initialize_step(stage, reply),
{
    match stage {
        InterruptInitStage::Start => (
            InterruptInitStage::InterruptRequested,
            InterruptInitAction::CreateInterrupt {
                config: InterruptConfig { evt_interrupt_isr: Some(InterruptCallback::Isr) },
                attributes: None,
            },
        ),
        InterruptInitStage::InterruptRequested => (
            InterruptInitStage::Finished(reply),
            InterruptInitAction::Return(reply),
        ),
        InterruptInitStage::Finished(status) => (
            InterruptInitStage::Finished(status),
            InterruptInitAction::Return(status),
        ),
    }
}

/// The interrupt service routine. `message_id` is the message number of a
/// message-signalled interrupt and is not read: every interrupt is claimed.
pub fn echo_evt_interrupt_isr(message_id: u32) -> (claimed: u8)
    ensures
        claimed == INTERRUPT_CLAIMED,
        claimed == 1,
{
    INTERRUPT_CLAIMED
}

/// Interrupt initialization is two steps long: it asks for one interrupt
/// object, served by the driver's routine and with default attributes, and
/// then returns the status that the framework gave, unchanged, be it a
/// success or a failure. What it is told on the first call does not matter.
pub proof fn lemma_interrupt_initialize_run(first: NtStatus, status: NtStatus)
    ensures
        ({
            let (requested, create) = interrupt_initialize_step(InterruptInitStage::Start, first);
            let (finished, outcome) = interrupt_initialize_step(requested, status);
            &&& create == (InterruptInitAction::CreateInterrupt {
                config: echo_interrupt_config(),
                attributes: None,
            })
            &&& outcome == InterruptInitAction::Return(status)
            &&& finished == InterruptInitStage::Finished(status)
        }),
{
}

/// Once the result has been returned the machine stays where it is and
/// returns the same status again, whatever it is told.
pub proof fn lemma_interrupt_initialize_finished(status: NtStatus, reply: NtStatus)
    ensures
        interrupt_initialize_step(InterruptInitStage::Finished(status), reply) == (
            InterruptInitStage::Finished(status),
            InterruptInitAction::Return(status),
        ),
{
}

} // verus!
