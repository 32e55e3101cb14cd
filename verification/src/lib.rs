use vstd::prelude::*;

pub mod config;
pub mod drivers;
pub mod editor;
pub mod errors;
pub mod location;
pub mod messages;
pub mod weather;

use crate::drivers::{InitState, NewEntryState, OpenState};

verus! {

/// The subcommand chosen on the command line: `init`, `new` or `open`.
#[derive(Clone, Copy, Debug, PartialEq, Eq, Structural)]
pub enum JournalCommand {
    Init,
    New,
    Open,
}

/// The workflow a subcommand starts, at its initial state.  The surrounding
/// program then drives the chosen machine with `init_step`, `new_entry_step`
/// or `open_step`.
#[derive(Debug, PartialEq)]
pub enum Workflow {
    Init(InitState),
    New(NewEntryState),
    Open(OpenState),
}

/// Dispatches the parsed command line onto one of the three workflows; with
/// no subcommand given there is nothing to run.
pub fn journal_main_driver(cmd: Option<JournalCommand>) -> (r: Option<Workflow>)
    ensures
        cmd == Some(JournalCommand::Init) ==> r == Some(Workflow::Init(InitState::Start)),
        cmd == Some(JournalCommand::New) ==> r == Some(Workflow::New(NewEntryState::Start)),
        cmd == Some(JournalCommand::Open) ==> r == Some(Workflow::Open(OpenState::Start)),
        cmd is None ==> r is None,
{
    match cmd {
        Some(JournalCommand::Init) => Some(Workflow::Init(InitState::Start)),
        Some(JournalCommand::New) => Some(Workflow::New(NewEntryState::Start)),
        Some(JournalCommand::Open) => Some(Workflow::Open(OpenState::Start)),
        None => None,
    }
}

} // verus!
