//! The driver capability contract and the reference in-process driver.

use vstd::prelude::*;
use crate::command::{clone_payload, Command, CommandResult, CommandResultView, CommandView};
use crate::error::RouterError;

verus! {

/// Capability contract the routing core uses to reach concrete devices.
///
/// `execute` performs exactly one protocol interaction per call and never
/// panics: failure is encoded in the returned result, not raised. Retry
/// policy belongs to the caller, not the driver.
pub trait Driver: Sized {
    /// What one execution does to the driver's state and what result it may
    /// hand back.
    spec fn post(pre: Self, post: Self, command: CommandView, r: CommandResultView) -> bool;

    /// Execute one command against the hardware; the result always echoes
    /// the command's id.
    fn execute(&mut self, command: &Command) -> (r: CommandResult)
        ensures
            r@.command_id == command@.id,
            Self::post(*old(self), *final(self), command@, r@),
    ;

    /// Begin any background listening needed to surface device events.
    /// Not required to be idempotent: a second call may fail with an
    /// already-started error.
    fn start(&mut self) -> (r: Result<(), RouterError>);

    /// Release listening resources. Safe to call even if `start` never
    /// succeeded, or after an earlier `stop`.
    fn stop(&mut self) -> (r: Result<(), RouterError>);
}

/// The reference in-process driver: it touches no transport and answers
/// every command successfully by echoing the command's payload, which makes
/// the full routing path exercisable without hardware.
#[derive(Debug, Clone, Copy, PartialEq, Eq, Structural)]
pub struct InProcessDriver {
    /// Whether the event listener is currently running.
    pub started: bool,
}

impl InProcessDriver {
    /// A fresh driver whose listener is not running.
    pub fn new() -> (r: InProcessDriver)
        ensures
            !r.started,
    {
        InProcessDriver { started: false }
    }
}

impl Driver for InProcessDriver {
    open spec fn post(pre: Self, post: Self, command: CommandView, r: CommandResultView) -> bool {
        &&& post == pre
        &&& r.command_id == command.id
        &&& r.device_id == command.target_device_id
        &&& r.res == Result::<Option<Seq<u8>>, Seq<char>>::Ok(command.payload)
    }

    fn execute(&mut self, command: &Command) -> (r: CommandResult) {
        CommandResult {
            command_id: command.id.clone(),
            device_id: command.target_device_id.clone(),
            res: Result::Ok(clone_payload(&command.payload)),
        }
    }

    fn start(&mut self) -> (r: Result<(), RouterError>)
        ensures
            old(self).started ==> r == Result::<(), RouterError>::Err(
                RouterError::DriverStartFailed,
            ) && *final(self) == *old(self),
            !old(self).started ==> r == Result::<(), RouterError>::Ok(()) && final(self).started,
    {
        if self.started {
            Result::Err(RouterError::DriverStartFailed)
        } else {
            self.started = true;
            Result::Ok(())
        }
    }

    fn stop(&mut self) -> (r: Result<(), RouterError>)
        ensures
            r == Result::<(), RouterError>::Ok(()),
            !final(self).started,
    {
        self.started = false;
        Result::Ok(())
    }
}

} // verus!
