//! The deployment pass: replace what stands at the installation path by the
//! bundled script tree, then have the dependencies installed there.
//!
//! The pass removes the target whole, creates it anew and copies the
//! children of the source into it, so that nothing of an earlier pass
//! survives and the source's own name adds no level below the target.

use vstd::prelude::*;
use crate::path::{join, joined, AbsolutePath};
use crate::protocol::{Action, ActionView, Event, ExitOutcome};

verus! {

/// The tool that installs the dependencies of the script tree.
pub const INSTALLER: &'static str = "npm";

/// The directive that makes the tool install.
pub const INSTALL_DIRECTIVE: &'static str = "install";

/// Where, below the root of the project, the bundled script tree lies.
pub const SOURCE_DIR: &'static str = "js";

/// Why a deployment pass failed.
#[derive(Clone, Copy, Debug, PartialEq, Eq, Structural)]
pub enum DeployError {
    /// The target is there and could not be removed.
    RemoveFailed,
    /// The target could not be created anew.
    CreateFailed,
    /// The source tree could not be copied.
    CopyFailed,
    /// The target could not be entered.
    ChangeDirFailed,
    /// The tool is not on the search path.
    ToolNotFound,
    /// The tool was found, but could not be started or waited for.
    ToolExecutionFailed,
    /// The driver left before the pass was done.
    Interrupted,
}

impl DeployError {
    /// What went wrong, in words.
    pub open spec fn spec_message(self) -> Seq<char> {
        match self {
            DeployError::RemoveFailed => "Failed to remove the installation directory."@,
            DeployError::CreateFailed => "Failed to create the installation directory."@,
            DeployError::CopyFailed => "Failed to copy the script sources."@,
            DeployError::ChangeDirFailed => "Failed to enter the installation directory."@,
            DeployError::ToolNotFound => "Program 'npm' not found."@,
            DeployError::ToolExecutionFailed => "Failed to execute 'npm' command."@,
            DeployError::Interrupted => "Deployment was interrupted."@,
        }
    }

    /// What went wrong, in words: the diagnostic names the step that failed.
    pub fn message(&self) -> (r: String)
        ensures
            r@ == self.spec_message(),
    {
        match self {
            DeployError::RemoveFailed => String::from_str(
                "Failed to remove the installation directory.",
            ),
            DeployError::CreateFailed => String::from_str(
                "Failed to create the installation directory.",
            ),
            DeployError::CopyFailed => String::from_str("Failed to copy the script sources."),
            DeployError::ChangeDirFailed => String::from_str(
                "Failed to enter the installation directory.",
            ),
            DeployError::ToolNotFound => String::from_str("Program 'npm' not found."),
            DeployError::ToolExecutionFailed => String::from_str(
                "Failed to execute 'npm' command.",
            ),
            DeployError::Interrupted => String::from_str("Deployment was interrupted."),
        }
    }
}

/// Where a deployment pass stands. Each phase but the last waits for the
/// report on one action.
#[derive(Clone, Copy, Debug, PartialEq, Eq)]
pub enum DeployPhase {
    /// The target is being removed.
    Removing,
    /// The target is being created anew.
    Creating,
    /// The source tree is being copied.
    Copying,
    /// The target is being entered.
    EnteringDir,
    /// The tool is being looked up.
    Locating,
    /// The tool is being started under a guard.
    Spawning,
    /// The tool runs under an armed guard and is being waited for.
    Waiting,
    /// The tool runs to completion with no handle held.
    Running,
    /// The guard is being torn down; what the pass will give is settled.
    Closing(Result<(), DeployError>),
    /// The pass is over.
    Finished(Result<(), DeployError>),
}

/// What a deployment pass was set up with.
pub ghost struct DeployPlan {
    pub source_root: Seq<char>,
    pub target: Seq<char>,
    /// Whether the tool runs under a guard, so that it is asked to terminate
    /// when the pass is left early.
    pub guarded: bool,
}

/// A phase, and the path at which the tool was found (empty before that).
pub ghost struct DeployState {
    pub phase: DeployPhase,
    pub tool: Seq<char>,
}

/// The phase that follows `phase` when the driver reports `event`.
///
/// A target that is not there counts as removed. Any other failure ends
/// the pass at once, but for one: once the tool runs under a guard, every
/// report leads to the teardown of the guard first. With what code the tool
/// ended is not looked at.
pub open spec fn next_phase(guarded: bool, phase: DeployPhase, event: Event) -> DeployPhase {
    match phase {
        DeployPhase::Removing => match event {
            Event::Succeeded | Event::Missing => DeployPhase::Creating,
            Event::Failed => DeployPhase::Finished(Err(DeployError::RemoveFailed)),
            _ => DeployPhase::Finished(Err(DeployError::Interrupted)),
        },
        DeployPhase::Creating => match event {
            Event::Succeeded => DeployPhase::Copying,
            Event::Missing | Event::Failed => DeployPhase::Finished(
                Err(DeployError::CreateFailed),
            ),
            _ => DeployPhase::Finished(Err(DeployError::Interrupted)),
        },
        DeployPhase::Copying => match event {
            Event::Succeeded => DeployPhase::EnteringDir,
            Event::Missing | Event::Failed => DeployPhase::Finished(Err(DeployError::CopyFailed)),
            _ => DeployPhase::Finished(Err(DeployError::Interrupted)),
        },
        DeployPhase::EnteringDir => match event {
            Event::Succeeded => DeployPhase::Locating,
            Event::Missing | Event::Failed => DeployPhase::Finished(
                Err(DeployError::ChangeDirFailed),
            ),
            _ => DeployPhase::Finished(Err(DeployError::Interrupted)),
        },
        DeployPhase::Locating => match event {
            Event::Located(_) => if guarded {
                DeployPhase::Spawning
            } else {
                DeployPhase::Running
            },
            Event::Missing | Event::Failed => DeployPhase::Finished(
                Err(DeployError::ToolNotFound),
            ),
            _ => DeployPhase::Finished(Err(DeployError::Interrupted)),
        },
        DeployPhase::Spawning => match event {
            Event::Succeeded => DeployPhase::Waiting,
            Event::Missing | Event::Failed => DeployPhase::Finished(
                Err(DeployError::ToolExecutionFailed),
            ),
            _ => DeployPhase::Finished(Err(DeployError::Interrupted)),
        },
        DeployPhase::Waiting => match event {
            Event::Exited(_) => DeployPhase::Closing(Ok(())),
            Event::Missing | Event::Failed => DeployPhase::Closing(
                Err(DeployError::ToolExecutionFailed),
            ),
            _ => DeployPhase::Closing(Err(DeployError::Interrupted)),
        },
        DeployPhase::Running => match event {
            Event::Exited(_) => DeployPhase::Finished(Ok(())),
            Event::Missing | Event::Failed => DeployPhase::Finished(
                Err(DeployError::ToolExecutionFailed),
            ),
            _ => DeployPhase::Finished(Err(DeployError::Interrupted)),
        },
        DeployPhase::Closing(result) => DeployPhase::Finished(result),
        DeployPhase::Finished(result) => DeployPhase::Finished(result),
    }
}

/// The state that follows `state` when the driver reports `event`: the next
/// phase, and the tool's path once it has been reported.
pub open spec fn next_state(guarded: bool, state: DeployState, event: Event) -> DeployState {
    DeployState {
        phase: next_phase(guarded, state.phase, event),
        tool: match (state.phase, event) {
            (DeployPhase::Locating, Event::Located(path)) => path@,
            _ => state.tool,
        },
    }
}

/// The arguments with which the tool is run.
pub open spec fn install_invocation() -> Seq<Seq<char>> {
    seq![INSTALL_DIRECTIVE@]
}

/// The action whose report `state` waits for.
pub open spec fn action_for(plan: DeployPlan, state: DeployState) -> ActionView {
    match state.phase {
        DeployPhase::Removing => ActionView::RemoveTree { path: plan.target },
        DeployPhase::Creating => ActionView::CreateDir { path: plan.target },
        DeployPhase::Copying => ActionView::CopyTree {
            from: plan.source_root,
            into: plan.target,
            content_only: true,
        },
        DeployPhase::EnteringDir => ActionView::ChangeDir { path: plan.target },
        DeployPhase::Locating => ActionView::LocateTool { name: INSTALLER@ },
        DeployPhase::Spawning => ActionView::Spawn {
            program: state.tool,
            args: install_invocation(),
        },
        DeployPhase::Waiting => ActionView::Wait,
        DeployPhase::Running => ActionView::Run { program: state.tool, args: install_invocation() },
        DeployPhase::Closing(_) => ActionView::Terminate,
        DeployPhase::Finished(_) => ActionView::Finish,
    }
}

/// The state in which a pass begins.
pub open spec fn initial() -> DeployState {
    DeployState { phase: DeployPhase::Removing, tool: Seq::empty() }
}

/// The state reached from the start after the reports `events`.
pub open spec fn replay(guarded: bool, events: Seq<Event>) -> DeployState
    decreases events.len(),
{
    if events.len() == 0 {
        initial()
    } else {
        next_state(guarded, replay(guarded, events.drop_last()), events.last())
    }
}

/// The actions that have been asked for after the reports `events`: the
/// first one, and one more for each report.
pub open spec fn issued(plan: DeployPlan, events: Seq<Event>) -> Seq<ActionView> {
    Seq::new(
        events.len() + 1,
        |i: int| action_for(plan, replay(plan.guarded, events.take(i))),
    )
}

/// The bundled script tree of the project rooted at `project_root`.
pub fn source_root(project_root: &str) -> (r: String)
    ensures
        r@ == joined(project_root@, SOURCE_DIR@),
{
    join(project_root, SOURCE_DIR)
}

/// The arguments with which the tool is run.
pub fn install_args() -> (r: Vec<String>)
    ensures
        r.deep_view() == install_invocation(),
{
    let mut out: Vec<String> = Vec::new();
    out.push(String::from_str(INSTALL_DIRECTIVE));
    assert(out.deep_view() =~= install_invocation());
    out
}

/// The error type of the `which` crate. Nothing of it is looked at: every
/// failed lookup counts as a tool that is not there.
#[verifier::external_type_specification]
#[verifier::external_body]
pub struct ExLookupError(which::Error);

/// `which::which`: the first executable file called `name` in the
/// directories of the search path, as text. Nothing is claimed of the
/// result: it depends on the environment of the process and on what is on
/// disk.
#[verifier::external_body]
fn search_path(name: &str) -> (r: Result<String, which::Error>) {
    match which::which(name) {
        Ok(found) => Ok(found.to_string_lossy().into_owned()),
        Err(error) => Err(error),
    }
}

/// The report that a lookup on the search path amounts to: where the tool
/// lies, or that it is missing, whatever kept it from being found.
pub fn lookup_report(found: Result<String, which::Error>) -> (r: Event)
    ensures
        match found {
            Ok(path) => r == Event::Located(path),
            Err(_) => r == Event::Missing,
        },
{
    match found {
        Ok(path) => Event::Located(path),
        Err(_) => Event::Missing,
    }
}

/// Looks `name` up on the search path and reports what came of it. This is
/// how [`Action::LocateTool`] is carried out.
pub fn locate(name: &str) -> (r: Event)
    ensures
        r is Located || r is Missing,
{
    lookup_report(search_path(name))
}

/// A deployment pass in progress.
pub struct Deployer {
    source_root: String,
    target: AbsolutePath,
    guarded: bool,
    phase: DeployPhase,
    tool: String,
}

impl Deployer {
    /// What the pass was set up with.
    pub closed spec fn plan(&self) -> DeployPlan {
        DeployPlan { source_root: self.source_root@, target: self.target@, guarded: self.guarded }
    }

    /// Where the pass stands.
    pub closed spec fn state(&self) -> DeployState {
        DeployState { phase: self.phase, tool: self.tool@ }
    }

    /// A pass that deploys the tree below `source_root` at `target`. With
    /// `guarded`, the tool runs under a guard. Nothing has been done yet.
    pub fn new(source_root: String, target: AbsolutePath, guarded: bool) -> (r: Deployer)
        ensures
            r.plan() == (DeployPlan { source_root: source_root@, target: target@, guarded }),
            r.state() == initial(),
    {
        Deployer { source_root, target, guarded, phase: DeployPhase::Removing, tool: String::new() }
    }

    /// Where the pass stands.
    pub fn phase(&self) -> (r: DeployPhase)
        ensures
            r == self.state().phase,
    {
        self.phase
    }

    /// Whether the tool runs under a guard that has not been torn down.
    pub fn child_live(&self) -> (r: bool)
        ensures
            r == (self.state().phase is Waiting),
    {
        match self.phase {
            DeployPhase::Waiting => true,
            _ => false,
        }
    }

    /// What the pass gave, once it is over.
    pub fn result(&self) -> (r: Option<Result<(), DeployError>>)
        ensures
            r == match self.state().phase {
                DeployPhase::Finished(result) => Some(result),
                _ => None,
            },
    {
        match self.phase {
            DeployPhase::Finished(result) => Some(result),
            _ => None,
        }
    }

    /// The action that the pass waits for. The first call gives the action
    /// to begin with.
    pub fn pending(&self) -> (r: Action)
        ensures
            r@ == action_for(self.plan(), self.state()),
    {
        match self.phase {
            DeployPhase::Removing => Action::RemoveTree { path: self.target.to_text() },
            DeployPhase::Creating => Action::CreateDir { path: self.target.to_text() },
            DeployPhase::Copying => Action::CopyTree {
                from: self.source_root.clone(),
                into: self.target.to_text(),
                content_only: true,
            },
            DeployPhase::EnteringDir => Action::ChangeDir { path: self.target.to_text() },
            DeployPhase::Locating => Action::LocateTool { name: String::from_str(INSTALLER) },
            DeployPhase::Spawning => Action::Spawn {
                program: self.tool.clone(),
                args: install_args(),
            },
            DeployPhase::Waiting => Action::Wait,
            DeployPhase::Running => Action::Run { program: self.tool.clone(), args: install_args() },
            DeployPhase::Closing(_) => Action::Terminate,
            DeployPhase::Finished(_) => Action::Finish,
        }
    }

    /// Takes the driver's report on the pending action and says what to do
    /// next.
    pub fn step(&mut self, event: Event) -> (r: Action)
        ensures
            final(self).plan() == old(self).plan(),
            final(self).state() == next_state(old(self).plan().guarded, old(self).state(), event),
            r@ == action_for(final(self).plan(), final(self).state()),
    {
        let next: DeployPhase = match self.phase {
            DeployPhase::Removing => match event {
                Event::Succeeded | Event::Missing => DeployPhase::Creating,
                Event::Failed => DeployPhase::Finished(Err(DeployError::RemoveFailed)),
                _ => DeployPhase::Finished(Err(DeployError::Interrupted)),
            },
            DeployPhase::Creating => match event {
                Event::Succeeded => DeployPhase::Copying,
                Event::Missing | Event::Failed => DeployPhase::Finished(
                    Err(DeployError::CreateFailed),
                ),
                _ => DeployPhase::Finished(Err(DeployError::Interrupted)),
            },
            DeployPhase::Copying => match event {
                Event::Succeeded => DeployPhase::EnteringDir,
                Event::Missing | Event::Failed => DeployPhase::Finished(
                    Err(DeployError::CopyFailed),
                ),
                _ => DeployPhase::Finished(Err(DeployError::Interrupted)),
            },
            DeployPhase::EnteringDir => match event {
                Event::Succeeded => DeployPhase::Locating,
                Event::Missing | Event::Failed => DeployPhase::Finished(
                    Err(DeployError::ChangeDirFailed),
                ),
                _ => DeployPhase::Finished(Err(DeployError::Interrupted)),
            },
            DeployPhase::Locating => match event {
                Event::Located(path) => {
                    self.tool = path;
                    if self.guarded {
                        DeployPhase::Spawning
                    } else {
                        DeployPhase::Running
                    }
                },
                Event::Missing | Event::Failed => DeployPhase::Finished(
                    Err(DeployError::ToolNotFound),
                ),
                _ => DeployPhase::Finished(Err(DeployError::Interrupted)),
            },
            DeployPhase::Spawning => match event {
                Event::Succeeded => DeployPhase::Waiting,
                Event::Missing | Event::Failed => DeployPhase::Finished(
                    Err(DeployError::ToolExecutionFailed),
                ),
                _ => DeployPhase::Finished(Err(DeployError::Interrupted)),
            },
            DeployPhase::Waiting => match event {
                Event::Exited(_) => DeployPhase::Closing(Ok(())),
                Event::Missing | Event::Failed => DeployPhase::Closing(
                    Err(DeployError::ToolExecutionFailed),
                ),
                _ => DeployPhase::Closing(Err(DeployError::Interrupted)),
            },
            DeployPhase::Running => match event {
                Event::Exited(_) => DeployPhase::Finished(Ok(())),
                Event::Missing | Event::Failed => DeployPhase::Finished(
                    Err(DeployError::ToolExecutionFailed),
                ),
                _ => DeployPhase::Finished(Err(DeployError::Interrupted)),
            },
            DeployPhase::Closing(result) => DeployPhase::Finished(result),
            DeployPhase::Finished(result) => DeployPhase::Finished(result),
        };
        self.phase = next;
        self.pending()
    }
}

/// How far a phase is along the pass. A tool that runs without a guard
/// stands where the guarded one is being started.
pub open spec fn progress(phase: DeployPhase) -> int {
    match phase {
        DeployPhase::Removing => 0,
        DeployPhase::Creating => 1,
        DeployPhase::Copying => 2,
        DeployPhase::EnteringDir => 3,
        DeployPhase::Locating => 4,
        DeployPhase::Spawning => 5,
        DeployPhase::Running => 5,
        DeployPhase::Waiting => 6,
        DeployPhase::Closing(_) => 7,
        DeployPhase::Finished(_) => 8,
    }
}

/// One report more moves the replay one state on.
pub proof fn lemma_replay_step(guarded: bool, events: Seq<Event>, i: int)
    requires
        0 <= i < events.len(),
    ensures
        replay(guarded, events.take(i + 1)) == next_state(
            guarded,
            replay(guarded, events.take(i)),
            events[i],
        ),
{
    assert(events.take(i + 1).drop_last() =~= events.take(i));
}

/// A pass that is over stays over, with the result it had.
pub proof fn lemma_finished_stays(guarded: bool, events: Seq<Event>, i: int, j: int)
    requires
        0 <= i <= j <= events.len(),
        replay(guarded, events.take(i)).phase is Finished,
    ensures
        replay(guarded, events.take(j)).phase == replay(guarded, events.take(i)).phase,
    decreases j - i,
{
    if i < j {
        lemma_finished_stays(guarded, events, i, j - 1);
        lemma_replay_step(guarded, events, j - 1);
    }
}

/// Until a pass is over it moves in lock step with the reports: after `i` of
/// them it stands in the phase whose progress is `i`.
pub proof fn lemma_lock_step(guarded: bool, events: Seq<Event>, i: int)
    requires
        0 <= i <= events.len(),
        !(replay(guarded, events.take(i)).phase is Finished),
    ensures
        progress(replay(guarded, events.take(i)).phase) == i,
    decreases i,
{
    if i == 0 {
        assert(events.take(0) =~= Seq::<Event>::empty());
    } else {
        lemma_replay_step(guarded, events, i - 1);
        lemma_lock_step(guarded, events, i - 1);
    }
}

/// The report at which a finished pass came to its end.
pub proof fn lemma_final_report(guarded: bool, events: Seq<Event>) -> (k: int)
    requires
        replay(guarded, events).phase is Finished,
    ensures
        0 <= k < events.len(),
        !(replay(guarded, events.take(k)).phase is Finished),
        replay(guarded, events.take(k + 1)).phase == replay(guarded, events).phase,
    decreases events.len(),
{
    assert(events.take(events.len() as int) =~= events);
    let before = events.drop_last();
    assert(events.take(events.len() - 1) =~= before);
    if replay(guarded, before).phase is Finished {
        let k = lemma_final_report(guarded, before);
        assert(before.take(k) =~= events.take(k));
        assert(before.take(k + 1) =~= events.take(k + 1));
        k
    } else {
        events.len() - 1
    }
}

/// Whether the target was there to be removed makes no difference to what
/// follows: the pass goes on to create it anew either way.
pub proof fn law_absent_target_counts_as_removed(guarded: bool)
    ensures
        next_phase(guarded, DeployPhase::Removing, Event::Missing) == next_phase(
            guarded,
            DeployPhase::Removing,
            Event::Succeeded,
        ),
        next_phase(guarded, DeployPhase::Removing, Event::Succeeded) == DeployPhase::Creating,
{
}

/// The tree is copied at one point only: right after the target has been
/// removed and created anew, from the source into that target, and always
/// children into target, so that the source's own name adds no level.
pub proof fn law_copy_mirrors_into_fresh_target(plan: DeployPlan, events: Seq<Event>, i: int)
    requires
        0 <= i <= events.len(),
        issued(plan, events)[i] is CopyTree,
    ensures
        i == 2,
        issued(plan, events)[0] == (ActionView::RemoveTree { path: plan.target }),
        issued(plan, events)[1] == (ActionView::CreateDir { path: plan.target }),
        issued(plan, events)[2] == (ActionView::CopyTree {
            from: plan.source_root,
            into: plan.target,
            content_only: true,
        }),
{
    let g = plan.guarded;
    lemma_lock_step(g, events, i);
    if replay(g, events.take(0)).phase is Finished {
        lemma_finished_stays(g, events, 0, i);
    }
    if replay(g, events.take(1)).phase is Finished {
        lemma_finished_stays(g, events, 1, i);
    }
    lemma_lock_step(g, events, 0);
    lemma_lock_step(g, events, 1);
}

/// A pass that succeeded has replaced the target by the source: it began by
/// removing the target, creating it anew and copying the source's children
/// into it, in that order, whatever stood there before.
pub proof fn law_successful_pass_replaces_target(plan: DeployPlan, events: Seq<Event>)
    requires
        replay(plan.guarded, events).phase == DeployPhase::Finished(Ok(())),
    ensures
        events.len() >= 6,
        issued(plan, events)[0] == (ActionView::RemoveTree { path: plan.target }),
        issued(plan, events)[1] == (ActionView::CreateDir { path: plan.target }),
        issued(plan, events)[2] == (ActionView::CopyTree {
            from: plan.source_root,
            into: plan.target,
            content_only: true,
        }),
        issued(plan, events)[3] == (ActionView::ChangeDir { path: plan.target }),
        issued(plan, events)[4] == (ActionView::LocateTool { name: INSTALLER@ }),
        issued(plan, events)[5].starts_child(),
{
    let g = plan.guarded;
    let k = lemma_final_report(g, events);
    lemma_replay_step(g, events, k);
    lemma_lock_step(g, events, k);
    assert(k >= 5);
    assert forall|i: int| 0 <= i <= 5 implies progress(
        #[trigger] replay(g, events.take(i)).phase,
    ) == i by {
        if replay(g, events.take(i)).phase is Finished {
            lemma_finished_stays(g, events, i, k);
        }
        lemma_lock_step(g, events, i);
    }
    assert(progress(replay(g, events.take(0)).phase) == 0);
    assert(progress(replay(g, events.take(1)).phase) == 1);
    assert(progress(replay(g, events.take(2)).phase) == 2);
    assert(progress(replay(g, events.take(3)).phase) == 3);
    assert(progress(replay(g, events.take(4)).phase) == 4);
    assert(progress(replay(g, events.take(5)).phase) == 5);
}

/// When the tool is not on the search path, the pass fails for that reason
/// and no child process is ever started: not before the lookup, and not
/// after it.
pub proof fn law_missing_tool_starts_no_child(plan: DeployPlan, events: Seq<Event>, k: int)
    requires
        0 <= k < events.len(),
        replay(plan.guarded, events.take(k)).phase is Locating,
        events[k] is Missing || events[k] is Failed,
    ensures
        replay(plan.guarded, events).phase == DeployPhase::Finished(
            Err(DeployError::ToolNotFound),
        ),
        forall|i: int|
            0 <= i <= events.len() ==> !(#[trigger] issued(plan, events)[i]).starts_child(),
{
    let g = plan.guarded;
    lemma_replay_step(g, events, k);
    lemma_finished_stays(g, events, k + 1, events.len() as int);
    assert(events.take(events.len() as int) =~= events);
    assert forall|i: int| 0 <= i <= events.len() implies !(#[trigger] issued(
        plan,
        events,
    )[i]).starts_child() by {
        if i <= k {
            if replay(g, events.take(i)).phase is Finished {
                lemma_finished_stays(g, events, i, k);
            }
            lemma_lock_step(g, events, i);
            lemma_lock_step(g, events, k);
        } else {
            lemma_finished_stays(g, events, k + 1, i);
        }
    }
}

/// A pass starts at most one child, and at one point only: right after the
/// tool has been found.
pub proof fn law_single_child(plan: DeployPlan, events: Seq<Event>, i: int)
    requires
        0 <= i <= events.len(),
        issued(plan, events)[i].starts_child(),
    ensures
        i == 5,
        issued(plan, events)[4] == (ActionView::LocateTool { name: INSTALLER@ }),
        issued(plan, events)[5] is Spawn <==> plan.guarded,
        issued(plan, events)[5] is Run <==> !plan.guarded,
{
    let g = plan.guarded;
    lemma_lock_step(g, events, i);
    lemma_replay_step(g, events, 4);
    if replay(g, events.take(4)).phase is Finished {
        lemma_finished_stays(g, events, 4, 5);
    }
    lemma_lock_step(g, events, 4);
}

/// The guard is torn down whichever way the wait ends: the action asked for
/// right after [`ActionView::Wait`] is [`ActionView::Terminate`], whatever
/// the driver reported, and `Terminate` is asked for at no other point.
pub proof fn law_teardown_follows_wait(plan: DeployPlan, events: Seq<Event>, i: int)
    requires
        0 <= i < events.len(),
    ensures
        issued(plan, events)[i] is Wait <==> issued(plan, events)[i + 1] is Terminate,
        !(issued(plan, events)[0] is Terminate),
{
    lemma_replay_step(plan.guarded, events, i);
    assert(events.take(0) =~= Seq::<Event>::empty());
}

/// Once a pass is over, no child is left behind: every wait that was asked
/// for was followed by the teardown of the guard.
pub proof fn law_finished_pass_leaves_no_child(plan: DeployPlan, events: Seq<Event>)
    requires
        replay(plan.guarded, events).phase is Finished,
    ensures
        forall|i: int|
            0 <= i <= events.len() && #[trigger] issued(plan, events)[i] is Wait ==> i
                < events.len() && issued(plan, events)[i + 1] is Terminate,
{
    assert(events.take(events.len() as int) =~= events);
    assert forall|i: int|
        0 <= i <= events.len() && #[trigger] issued(plan, events)[i] is Wait implies i
        < events.len() && issued(plan, events)[i + 1] is Terminate by {
        if i < events.len() {
            law_teardown_follows_wait(plan, events, i);
        }
    }
}

/// Without a guard the pass holds no handle: it never waits and never tears
/// down. With a guard it never runs the tool unattended.
pub proof fn law_policy_selects_supervision(plan: DeployPlan, events: Seq<Event>, i: int)
    requires
        0 <= i <= events.len(),
    ensures
        !plan.guarded ==> !(issued(plan, events)[i] is Spawn) && !(issued(plan, events)[i] is Wait)
            && !(issued(plan, events)[i] is Terminate),
        plan.guarded ==> !(issued(plan, events)[i] is Run),
    decreases i,
{
    let g = plan.guarded;
    if i == 0 {
        assert(events.take(0) =~= Seq::<Event>::empty());
    } else {
        lemma_replay_step(g, events, i - 1);
        law_policy_selects_supervision(plan, events, i - 1);
    }
}

/// With what code the tool ended is not looked at: once it has been waited
/// for, the pass succeeds.
pub proof fn law_exit_code_is_not_inspected(guarded: bool, outcome: ExitOutcome)
    ensures
        next_phase(guarded, DeployPhase::Waiting, Event::Exited(outcome)) == DeployPhase::Closing(
            Ok(()),
        ),
        next_phase(guarded, DeployPhase::Running, Event::Exited(outcome)) == DeployPhase::Finished(
            Ok(()),
        ),
{
}

} // verus!
