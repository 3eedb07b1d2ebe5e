//! Commands, command results, and their mathematical views.

use vstd::prelude::*;

verus! {

/// Caller-assigned identifier of a command, used for correlation.
pub type CommandId = String;

/// The semantic intent of a command: read (`Get`), write (`Write`), or
/// invoke (`Action`).
#[derive(Debug, Clone, Copy, PartialEq, Eq, Structural)]
pub enum CommandType {
    Get,
    Write,
    Action,
}

/// A command sent to a device through the routing core.
#[derive(Debug)]
pub struct Command {
    /// Caller-assigned id, echoed in the matching [`CommandResult`].
    pub id: CommandId,
    /// The registry id of the device this command addresses.
    pub target_device_id: String,
    /// Read, write, or invoke.
    pub command_type: CommandType,
    /// Name of the addressed resource on the target device.
    pub resource: String,
    /// Opaque bytes whose meaning the resource's protocol defines; the core
    /// never interprets them.
    pub payload: Option<Vec<u8>>,
}

/// The mathematical value of a [`Command`].
#[verifier::ext_equal]
pub ghost struct CommandView {
    pub id: Seq<char>,
    pub target_device_id: Seq<char>,
    pub command_type: CommandType,
    pub resource: Seq<char>,
    pub payload: Option<Seq<u8>>,
}

/// The mathematical value of an optional payload.
pub open spec fn opt_bytes(o: Option<Vec<u8>>) -> Option<Seq<u8>> {
    match o {
        Option::None => Option::None,
        Option::Some(v) => Option::Some(v@),
    }
}

impl View for Command {
    type V = CommandView;

    open spec fn view(&self) -> CommandView {
        CommandView {
            id: self.id@,
            target_device_id: self.target_device_id@,
            command_type: self.command_type,
            resource: self.resource@,
            payload: opt_bytes(self.payload),
        }
    }
}

impl Command {
    /// A field-for-field copy of this command.
    pub fn duplicate(&self) -> (r: Command)
        ensures
            r@ == self@,
    {
        Command {
            id: self.id.clone(),
            target_device_id: self.target_device_id.clone(),
            command_type: self.command_type,
            resource: self.resource.clone(),
            payload: clone_payload(&self.payload),
        }
    }
}

/// The outcome of executing one command: exactly one of success (with
/// optional returned bytes) or failure (with a human-readable reason),
/// enforced structurally by `Result`.
#[derive(Debug)]
pub struct CommandResult {
    /// Echoes the id of the command this result answers.
    pub command_id: CommandId,
    /// The device the command was executed against.
    pub device_id: String,
    /// Success with optional returned bytes, or failure with a reason.
    pub res: Result<Option<Vec<u8>>, String>,
}

/// The mathematical value of a [`CommandResult`].
#[verifier::ext_equal]
pub ghost struct CommandResultView {
    pub command_id: Seq<char>,
    pub device_id: Seq<char>,
    pub res: Result<Option<Seq<u8>>, Seq<char>>,
}

/// The mathematical value of a command outcome.
pub open spec fn res_view(r: Result<Option<Vec<u8>>, String>) -> Result<Option<Seq<u8>>, Seq<char>> {
    match r {
        Result::Ok(o) => Result::Ok(opt_bytes(o)),
        Result::Err(e) => Result::Err(e@),
    }
}

impl View for CommandResult {
    type V = CommandResultView;

    open spec fn view(&self) -> CommandResultView {
        CommandResultView {
            command_id: self.command_id@,
            device_id: self.device_id@,
            res: res_view(self.res),
        }
    }
}

impl CommandResult {
    /// A field-for-field copy of this result.
    pub fn duplicate(&self) -> (r: CommandResult)
        ensures
            r@ == self@,
    {
        let res: Result<Option<Vec<u8>>, String> = match &self.res {
            Result::Ok(o) => Result::Ok(clone_payload(o)),
            Result::Err(e) => Result::Err(e.clone()),
        };
        CommandResult { command_id: self.command_id.clone(), device_id: self.device_id.clone(), res }
    }
}

/// A copy of an optional byte payload.
pub fn clone_payload(o: &Option<Vec<u8>>) -> (r: Option<Vec<u8>>)
    ensures
        opt_bytes(r) == opt_bytes(*o),
{
    match o {
        Option::None => Option::None,
        Option::Some(v) => {
            let w = v.clone();
            proof {
                assert(w@ =~= v@);
            }
            Option::Some(w)
        },
    }
}

} // verus!
