//! Device commands: the closed set of actuation orders a run can carry,
//! and the mapping from textual action names to commands.

use vstd::prelude::*;

verus! {

/// One actuation order against the relay hardware.
#[derive(Debug, Clone, Copy, PartialEq, Eq, Structural)]
pub enum Command {
    Monitor,
    ArmSensors,
    StagePumps,
    EnablePumpsLow,
    EnablePumpsHigh,
    OpenValvesPriority,
    OpenValvesAll,
    Lockdown,
    Noop,
}

/// The outcome of applying one command to a device.
#[derive(Debug, Clone)]
pub struct CommandResult {
    pub ok: bool,
    pub message: String,
}

/// The display name of a command.
pub open spec fn command_name_spec(c: Command) -> Seq<char> {
    match c {
        Command::Monitor => "Monitor"@,
        Command::ArmSensors => "ArmSensors"@,
        Command::StagePumps => "StagePumps"@,
        Command::EnablePumpsLow => "EnablePumpsLow"@,
        Command::EnablePumpsHigh => "EnablePumpsHigh"@,
        Command::OpenValvesPriority => "OpenValvesPriority"@,
        Command::OpenValvesAll => "OpenValvesAll"@,
        Command::Lockdown => "Lockdown"@,
        Command::Noop => "Noop"@,
    }
}

impl Command {
    /// The display name of this command.
    pub fn name(&self) -> (r: &'static str)
        ensures
            r@ == command_name_spec(*self),
    {
        match self {
            Command::Monitor => "Monitor",
            Command::ArmSensors => "ArmSensors",
            Command::StagePumps => "StagePumps",
            Command::EnablePumpsLow => "EnablePumpsLow",
            Command::EnablePumpsHigh => "EnablePumpsHigh",
            Command::OpenValvesPriority => "OpenValvesPriority",
            Command::OpenValvesAll => "OpenValvesAll",
            Command::Lockdown => "Lockdown",
            Command::Noop => "Noop",
        }
    }
}

/// The command named by a textual action; unrecognized names are `Noop`.
pub open spec fn action_to_command_spec(s: Seq<char>) -> Command {
    if s == "monitor"@ { Command::Monitor }
    else if s == "arm_sensors"@ { Command::ArmSensors }
    else if s == "stage_pumps"@ { Command::StagePumps }
    else if s == "enable_pumps_low"@ { Command::EnablePumpsLow }
    else if s == "enable_pumps_high"@ { Command::EnablePumpsHigh }
    else if s == "open_valves_priority"@ { Command::OpenValvesPriority }
    else if s == "open_valves_all"@ { Command::OpenValvesAll }
    else if s == "lockdown"@ { Command::Lockdown }
    else { Command::Noop }
}

/// Maps a textual action name to its command.
pub fn action_to_command(s: &str) -> (r: Command)
    ensures
        r == action_to_command_spec(s@),
{
    if crate::strutil::str_eq(s, "monitor") { Command::Monitor }
    else if crate::strutil::str_eq(s, "arm_sensors") { Command::ArmSensors }
    else if crate::strutil::str_eq(s, "stage_pumps") { Command::StagePumps }
    else if crate::strutil::str_eq(s, "enable_pumps_low") { Command::EnablePumpsLow }
    else if crate::strutil::str_eq(s, "enable_pumps_high") { Command::EnablePumpsHigh }
    else if crate::strutil::str_eq(s, "open_valves_priority") { Command::OpenValvesPriority }
    else if crate::strutil::str_eq(s, "open_valves_all") { Command::OpenValvesAll }
    else if crate::strutil::str_eq(s, "lockdown") { Command::Lockdown }
    else { Command::Noop }
}

} // verus!
