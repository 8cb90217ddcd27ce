//! The device abstraction layer: the capability a driver offers — apply
//! one command to one installation — and the no-op driver used for tests
//! and for deployments without hardware.

use vstd::prelude::*;
use vstd::string::*;
use crate::command::{command_name_spec, Command, CommandResult};

verus! {

/// The read-only status acknowledgment of an installation: not a live
/// hardware query — real state polling is out of scope.
#[derive(Debug)]
pub struct StatusAck {
    pub ok: bool,
    pub installation_id: String,
}

/// The acknowledgment every driver answers a status query with.
pub fn device_status(installation_id: &str) -> (r: StatusAck)
    ensures
        r.ok,
        r.installation_id@ == installation_id@,
{
    StatusAck { ok: true, installation_id: installation_id.to_owned() }
}

/// A device backend. Implementations are selected by configuration at
/// process start; nothing is promised of what a backend returns, so
/// callers must state what holds whatever comes back.
pub trait DeviceDriver {
    /// Applies one command to the installation's hardware; the error is a
    /// human-readable message.
    fn apply(&self, installation_id: &str, cmd: Command) -> Result<CommandResult, String>;

    /// Acknowledges that the installation exists; a driver may override
    /// this with a real hardware query.
    fn status(&self, installation_id: &str) -> (r: StatusAck)
        ensures
            r.installation_id@ == installation_id@,
    {
        device_status(installation_id)
    }
}

/// A driver that acknowledges every command without touching hardware.
#[derive(Debug)]
pub struct MockDriver;

/// The message the mock driver acknowledges a command with.
pub open spec fn mock_message_spec(cmd: Command) -> Seq<char> {
    "applied "@ + command_name_spec(cmd)
}

impl DeviceDriver for MockDriver {
    fn apply(&self, _installation_id: &str, cmd: Command) -> (r: Result<CommandResult, String>)
        ensures
            r matches Ok(cr) && cr.ok && cr.message@ == mock_message_spec(cmd),
    {
        let mut message = String::from_str("applied ");
        message.append(cmd.name());
        Ok(CommandResult { ok: true, message })
    }
}

} // verus!
