//! The person at the front end, and the two front ends they move between.
//!
//! A `User` starts idle, launches the command line, from a running command opens
//! the terminal interface, defines a workflow there, runs it, and may look at the
//! logs. Each step is taken only from the states that allow it; from any other
//! state it changes nothing.

use vstd::prelude::*;

verus! {

/// What the terminal interface shows.
#[derive(Clone, Copy, Debug, PartialEq, Eq, Structural)]
pub enum View {
    Workflow,
    Logs,
}

/// The command line: idle until it is started.
#[derive(Clone, Copy, Debug, PartialEq, Eq, Structural)]
pub enum CLI {
    Idle,
    RunningCommand,
}

impl CLI {
    /// A command line that has not been started.
    pub fn new() -> (cli: CLI)
        ensures
            cli == CLI::Idle,
    {
        CLI::Idle
    }

    /// Starts the command line: it is running a command afterwards.
    pub fn start(&mut self)
        ensures
            *final(self) == CLI::RunningCommand,
    {
        *self = CLI::RunningCommand;
    }

    /// The state the command line is in.
    pub fn get_state(&self) -> (state: CLI)
        ensures
            state == *self,
    {
        *self
    }
}

/// The terminal interface: closed or open, and the view last set, if any.
#[derive(Clone, Copy, Debug, PartialEq, Eq, Structural)]
pub struct TUI {
    pub opened: bool,
    pub view: Option<View>,
}

impl TUI {
    /// A closed terminal interface with no view set.
    pub fn new() -> (tui: TUI)
        ensures
            tui == (TUI { opened: false, view: None }),
    {
        TUI { opened: false, view: None }
    }

    /// Opens the interface; the view stays as it was.
    pub fn open(&mut self)
        ensures
            final(self).opened,
            final(self).view == old(self).view,
    {
        self.opened = true;
    }

    /// Shows `view`; whether the interface is open stays as it was.
    pub fn set_view(&mut self, view: View)
        ensures
            final(self).view == Some(view),
            final(self).opened == old(self).opened,
    {
        self.view = Some(view);
    }
}

/// Where the person at the front end currently is.
#[derive(Clone, Copy, Debug, PartialEq, Eq, Structural)]
pub enum User {
    Idle,
    InCLI,
    InTUI,
    DefiningWorkflow,
    RunningWorkflow,
    ReviewingLogs,
}

impl User {
    /// From `Idle`: starts the command line and moves into it.
    /// From any other state nothing changes.
    pub fn launch_cli(&mut self, cli: &mut CLI)
        ensures
            *old(self) == User::Idle ==> *final(self) == User::InCLI && *final(cli)
                == CLI::RunningCommand,
            *old(self) != User::Idle ==> *final(self) == *old(self) && *final(cli) == *old(cli),
    {
        match *self {
            User::Idle => {
                cli.start();
                *self = User::InCLI;
            },
            _ => {},
        }
    }

    /// From `InCLI`, while the command line runs a command: opens the terminal
    /// interface and moves into it. Otherwise nothing changes.
    pub fn launch_tui(&mut self, cli: &CLI, tui: &mut TUI)
        ensures
            *old(self) == User::InCLI && *cli == CLI::RunningCommand ==> *final(self)
                == User::InTUI && *final(tui) == (TUI { opened: true, view: old(tui).view }),
            !(*old(self) == User::InCLI && *cli == CLI::RunningCommand) ==> *final(self) == *old(
                self,
            ) && *final(tui) == *old(tui),
    {
        match *self {
            User::InCLI => {
                match cli.get_state() {
                    CLI::RunningCommand => {
                        tui.open();
                        *self = User::InTUI;
                    },
                    CLI::Idle => {},
                }
            },
            _ => {},
        }
    }

    /// From `InTUI`: shows the workflow view and starts defining a workflow.
    /// From any other state nothing changes.
    pub fn define_workflow(&mut self, tui: &mut TUI)
        ensures
            *old(self) == User::InTUI ==> *final(self) == User::DefiningWorkflow && *final(tui)
                == (TUI { opened: old(tui).opened, view: Some(View::Workflow) }),
            *old(self) != User::InTUI ==> *final(self) == *old(self) && *final(tui) == *old(tui),
    {
        match *self {
            User::InTUI => {
                tui.set_view(View::Workflow);
                *self = User::DefiningWorkflow;
            },
            _ => {},
        }
    }

    /// From `DefiningWorkflow`: runs the workflow. From any other state nothing changes.
    pub fn run_workflow(&mut self)
        ensures
            *old(self) == User::DefiningWorkflow ==> *final(self) == User::RunningWorkflow,
            *old(self) != User::DefiningWorkflow ==> *final(self) == *old(self),
    {
        match *self {
            User::DefiningWorkflow => {
                *self = User::RunningWorkflow;
            },
            _ => {},
        }
    }

    /// From `InTUI` or `DefiningWorkflow`: shows the logs and turns to them.
    /// From any other state nothing changes.
    pub fn view_logs(&mut self, tui: &mut TUI)
        ensures
            (*old(self) == User::InTUI || *old(self) == User::DefiningWorkflow) ==> *final(self)
                == User::ReviewingLogs && *final(tui) == (TUI {
                opened: old(tui).opened,
                view: Some(View::Logs),
            }),
            !(*old(self) == User::InTUI || *old(self) == User::DefiningWorkflow) ==> *final(self)
                == *old(self) && *final(tui) == *old(tui),
    {
        match *self {
            User::InTUI | User::DefiningWorkflow => {
                tui.set_view(View::Logs);
                *self = User::ReviewingLogs;
            },
            _ => {},
        }
    }
}

} // verus!
