//! What a machine asks of its driver, and what the driver reports back.

use vstd::prelude::*;

verus! {

/// The exit code that stands for a child that ended without one.
pub const NO_CODE_EXIT: i32 = 1;

/// How a child process ended: with an exit code, or without one when a signal
/// ended it.
#[derive(Clone, Copy, Debug, PartialEq, Eq, Structural)]
pub struct ExitOutcome {
    pub code: Option<i32>,
}

impl ExitOutcome {
    /// The code with which the supervising process itself ends.
    pub open spec fn spec_exit_code(self) -> i32 {
        match self.code {
            Some(code) => code,
            None => NO_CODE_EXIT,
        }
    }

    /// The code with which the supervising process itself ends: the child's
    /// own code, or [`NO_CODE_EXIT`] where it had none.
    pub fn exit_code(&self) -> (r: i32)
        ensures
            r == self.spec_exit_code(),
    {
        match self.code {
            Some(code) => code,
            None => NO_CODE_EXIT,
        }
    }
}

/// What the driver reports after performing an action.
#[derive(Clone, Debug, PartialEq, Eq)]
pub enum Event {
    /// The action was carried out.
    Succeeded,
    /// What the action looked for is not there.
    Missing,
    /// The action failed for any other reason.
    Failed,
    /// The tool that was looked for lies at this path.
    Located(String),
    /// The awaited child ended.
    Exited(ExitOutcome),
    /// The driver is leaving before the work is done.
    Interrupted,
}

/// What a machine asks its driver to do next.
#[derive(Clone, Debug, PartialEq, Eq)]
pub enum Action {
    /// Remove the directory at `path` with everything below it.
    RemoveTree { path: String },
    /// Create the directory at `path`, empty.
    CreateDir { path: String },
    /// Copy the tree below `from` into `into`. With `content_only` the
    /// children of `from` become children of `into`; without it `from` itself
    /// does.
    CopyTree { from: String, into: String, content_only: bool },
    /// Make `path` the working directory of the process.
    ChangeDir { path: String },
    /// Look `name` up on the search path.
    LocateTool { name: String },
    /// Start `program` with `args` as a child that a guard owns.
    Spawn { program: String, args: Vec<String> },
    /// Run `program` with `args` to completion, holding no handle to it.
    Run { program: String, args: Vec<String> },
    /// Block until the guarded child ends.
    Wait,
    /// Tear the guard down: it asks the child to terminate.
    Terminate,
    /// Nothing is left to do: the result stands.
    Finish,
}

/// An [`Action`] with its texts as sequences of characters.
pub ghost enum ActionView {
    RemoveTree { path: Seq<char> },
    CreateDir { path: Seq<char> },
    CopyTree { from: Seq<char>, into: Seq<char>, content_only: bool },
    ChangeDir { path: Seq<char> },
    LocateTool { name: Seq<char> },
    Spawn { program: Seq<char>, args: Seq<Seq<char>> },
    Run { program: Seq<char>, args: Seq<Seq<char>> },
    Wait,
    Terminate,
    Finish,
}

impl View for Action {
    type V = ActionView;

    open spec fn view(&self) -> ActionView {
        match self {
            Action::RemoveTree { path } => ActionView::RemoveTree { path: path@ },
            Action::CreateDir { path } => ActionView::CreateDir { path: path@ },
            Action::CopyTree { from, into, content_only } => ActionView::CopyTree {
                from: from@,
                into: into@,
                content_only: *content_only,
            },
            Action::ChangeDir { path } => ActionView::ChangeDir { path: path@ },
            Action::LocateTool { name } => ActionView::LocateTool { name: name@ },
            Action::Spawn { program, args } => ActionView::Spawn {
                program: program@,
                args: args.deep_view(),
            },
            Action::Run { program, args } => ActionView::Run {
                program: program@,
                args: args.deep_view(),
            },
            Action::Wait => ActionView::Wait,
            Action::Terminate => ActionView::Terminate,
            Action::Finish => ActionView::Finish,
        }
    }
}

impl ActionView {
    /// Whether the action brings a child process to life.
    pub open spec fn starts_child(self) -> bool {
        self is Spawn || self is Run
    }
}

} // verus!
