//! Commands that the Binance exchange acts on, taken from control commands.
use vstd::prelude::*;

use crate::control::control::ControlCommand;

verus! {

#[derive(Debug)]
pub enum Command {
    AddPair(String),
    RemovePair(String),
    AddKey(String, String),
}

/// The exchange command a control command stands for: adding or removing a
/// pair keeps the pair; the key commands have none.
pub open spec fn command_for(value: ControlCommand) -> Result<Command, ()> {
    match value {
        ControlCommand::AddPair(_, pair) => Ok(Command::AddPair(pair)),
        ControlCommand::RemovePair(_, pair) => Ok(Command::RemovePair(pair)),
        _ => Err(()),
    }
}

impl TryFrom<ControlCommand> for Command {
    type Error = ();

    fn try_from(value: ControlCommand) -> (r: Result<Self, Self::Error>) {
        match value {
            ControlCommand::AddPair(_, pair) => Ok(Command::AddPair(pair)),
            ControlCommand::RemovePair(_, pair) => Ok(Command::RemovePair(pair)),
            _ => Err(()),
        }
    }
}

impl vstd::std_specs::convert::TryFromSpecImpl<ControlCommand> for Command {
    open spec fn obeys_try_from_spec() -> bool {
        true
    }

    open spec fn try_from_spec(v: ControlCommand) -> Result<Self, Self::Error> {
        command_for(v)
    }
}

} // verus!
