//! What the driver does when the framework starts, restarts or suspends the
//! device's self-managed I/O.
//!
//! The driver completes requests from a periodic timer. Before the device
//! leaves its working state the queue is drained and the timer stopped; when
//! the device comes back both are started again. Neither routine decides
//! anything: each names a queue command and a timer command, to be carried
//! out in that order, and the status to report afterwards.

use vstd::prelude::*;
use crate::status::{NtStatus, STATUS_SUCCESS};

verus! {

/// The period of the timer, in milliseconds.
pub const TIMER_PERIOD_MS: i64 = 100;

/// The number of 100-nanosecond ticks, the unit of a due time, in one
/// millisecond.
pub const TICKS_PER_MS: i64 = 10000;

/// The due time handed to the timer when it is started. A negative due time
/// is relative to the moment of the call.
pub const TIMER_DUE_TIME: i64 = -(TIMER_PERIOD_MS * TICKS_PER_MS);

/// A routine of the driver that the framework calls on a power transition.
#[derive(Clone, Copy, Debug, PartialEq, Eq)]
pub enum PowerCallback {
    /// [`echo_evt_device_self_managed_io_start`].
    SelfManagedIoStart,
    /// [`echo_evt_device_self_managed_io_suspend`].
    SelfManagedIoSuspend,
}

/// A command for the device's default queue.
#[derive(Clone, Copy, Debug, PartialEq, Eq)]
pub enum QueueCommand {
    /// Let the queue deliver requests again.
    Start,
    /// Stop delivery and wait until no request is owned by the driver.
    StopSynchronously,
}

/// A command for the timer kept in the queue's context.
#[derive(Clone, Copy, Debug, PartialEq, Eq)]
pub enum TimerCommand {
    /// Start the timer's clock with the given due time.
    Start { due_time: i64 },
    /// Stop the timer; with `wait`, return only once a callback that is
    /// already running has finished.
    Stop { wait: bool },
}

/// The work of one self-managed I/O callback: the queue command first, then
/// the timer command, then `status` is returned to the framework. What the
/// timer answers does not change the status.
#[derive(Clone, Copy, Debug, PartialEq, Eq)]
pub struct SelfManagedIo {
    pub queue: QueueCommand,
    pub timer: TimerCommand,
    pub status: NtStatus,
}

/// The work done when self-managed I/O starts or restarts.
pub open spec fn self_managed_io_start() -> SelfManagedIo {
    SelfManagedIo {
        queue: QueueCommand::Start,
        timer: TimerCommand::Start { due_time: TIMER_DUE_TIME },
        status: STATUS_SUCCESS,
    }
}

/// The work done when self-managed I/O is suspended.
pub open spec fn self_managed_io_suspend() -> SelfManagedIo {
    SelfManagedIo {
        queue: QueueCommand::StopSynchronously,
        timer: TimerCommand::Stop { wait: true },
        status: STATUS_SUCCESS,
    }
}

/// Called when the device is started, and again when it is restarted after a
/// suspend: the queue is started and the timer armed to fire one period from
/// now. Always reports success.
pub fn echo_evt_device_self_managed_io_start() -> (work: SelfManagedIo)
    ensures
        work == self_managed_io_start(),
        work.timer == (TimerCommand::Start { due_time: -1_000_000i64 }),
{
    let due_time: i64 = -(TIMER_PERIOD_MS * TICKS_PER_MS);
    SelfManagedIo {
        queue: QueueCommand::Start,
        timer: TimerCommand::Start { due_time },
        status: STATUS_SUCCESS,
    }
}

/// Called when the device is stopped or suspended: the queue is stopped once
/// the outstanding requests have completed, then the timer is stopped after
/// any running callback has finished. Always reports success.
pub fn echo_evt_device_self_managed_io_suspend() -> (work: SelfManagedIo)
    ensures
        work == self_managed_io_suspend(),
{
    SelfManagedIo {
        queue: QueueCommand::StopSynchronously,
        timer: TimerCommand::Stop { wait: true },
        status: STATUS_SUCCESS,
    }
}

} // verus!
