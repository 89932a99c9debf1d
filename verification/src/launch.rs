//! The supervised launch: enter the installation directory, start the
//! program there with the caller's directory and arguments, wait for it, and
//! have its guard torn down whichever way the wait ends.

use vstd::prelude::*;
use crate::path::AbsolutePath;
use crate::protocol::{Action, ActionView, Event, ExitOutcome};

verus! {

/// The program that runs the deployed scripts.
pub const PROGRAM: &'static str = "npm";

/// The directive that makes the program run a script of the package.
pub const RUN_DIRECTIVE: &'static str = "run";

/// The script that is run.
pub const SUB_TARGET: &'static str = "start";

/// The flag that keeps the program itself quiet.
pub const SILENT_FLAG: &'static str = "--silent";

/// The token after which the program passes arguments on uninterpreted.
pub const ARG_SEPARATOR: &'static str = "--";

/// How many leading entries of the command line are not forwarded: the
/// program's own name and one reserved slot.
pub const RESERVED_ARGS: usize = 2;

/// The entries of a command line that are forwarded: all but the first
/// [`RESERVED_ARGS`], in their order.
pub open spec fn forwarded(argv: Seq<Seq<char>>) -> Seq<Seq<char>> {
    if argv.len() >= RESERVED_ARGS {
        argv.skip(RESERVED_ARGS as int)
    } else {
        Seq::empty()
    }
}

/// The arguments of the launched program: the four fixed ones, then the
/// caller's directory as one argument, then the forwarded ones in their order.
pub open spec fn invocation(caller_cwd: Seq<char>, forwarded: Seq<Seq<char>>) -> Seq<Seq<char>> {
    seq![RUN_DIRECTIVE@, SUB_TARGET@, SILENT_FLAG@, ARG_SEPARATOR@, caller_cwd] + forwarded
}

/// The forwarded part of a command line.
pub fn forwarded_args(argv: &Vec<String>) -> (r: Vec<String>)
    ensures
        r.deep_view() == forwarded(argv.deep_view()),
{
    let mut out: Vec<String> = Vec::new();
    if argv.len() < RESERVED_ARGS {
        assert(out.deep_view() =~= Seq::<Seq<char>>::empty());
        return out;
    }
    let mut i: usize = RESERVED_ARGS;
    while i < argv.len()
        invariant
            RESERVED_ARGS <= i <= argv.len(),
            out.deep_view() =~= argv.deep_view().subrange(RESERVED_ARGS as int, i as int),
        decreases argv.len() - i,
    {
        let ghost before = out.deep_view();
        let arg: String = argv[i].clone();
        out.push(arg);
        assert(out.deep_view() =~= before.push(argv@[i as int]@));
        i = i + 1;
    }
    assert(argv.deep_view().subrange(RESERVED_ARGS as int, i as int) =~= argv.deep_view().skip(
        RESERVED_ARGS as int,
    ));
    out
}

/// The arguments with which the program is launched.
pub fn invocation_args(caller_cwd: &str, forwarded: &Vec<String>) -> (r: Vec<String>)
    ensures
        r.deep_view() == invocation(caller_cwd@, forwarded.deep_view()),
{
    let mut out: Vec<String> = Vec::new();
    out.push(String::from_str(RUN_DIRECTIVE));
    out.push(String::from_str(SUB_TARGET));
    out.push(String::from_str(SILENT_FLAG));
    out.push(String::from_str(ARG_SEPARATOR));
    out.push(String::from_str(caller_cwd));
    let ghost fixed = out.deep_view();
    assert(fixed =~= seq![RUN_DIRECTIVE@, SUB_TARGET@, SILENT_FLAG@, ARG_SEPARATOR@, caller_cwd@]);
    let mut i: usize = 0;
    while i < forwarded.len()
        invariant
            i <= forwarded.len(),
            out.deep_view() =~= fixed + forwarded.deep_view().take(i as int),
        decreases forwarded.len() - i,
    {
        let ghost before = out.deep_view();
        let arg: String = forwarded[i].clone();
        out.push(arg);
        assert(out.deep_view() =~= before.push(forwarded@[i as int]@));
        i = i + 1;
    }
    assert(forwarded.deep_view().take(i as int) =~= forwarded.deep_view());
    out
}

/// Why a launch failed.
#[derive(Clone, Copy, Debug, PartialEq, Eq, Structural)]
pub enum LaunchError {
    /// The installation directory could not be entered.
    ChangeDirFailed,
    /// The program could not be found or started.
    SpawnFailed,
    /// The program was started, but waiting for it failed.
    WaitFailed,
    /// The driver left before the program had ended.
    Interrupted,
}

impl LaunchError {
    /// What went wrong, in words.
    pub open spec fn spec_message(self) -> Seq<char> {
        match self {
            LaunchError::ChangeDirFailed => "Failed to enter the installation directory."@,
            LaunchError::SpawnFailed => "Failed to execute 'npm' command."@,
            LaunchError::WaitFailed => "Failed to wait for the 'npm' command."@,
            LaunchError::Interrupted => "Launch was interrupted."@,
        }
    }

    /// What went wrong, in words: the diagnostic names the step that failed.
    pub fn message(&self) -> (r: String)
        ensures
            r@ == self.spec_message(),
    {
        match self {
            LaunchError::ChangeDirFailed => String::from_str(
                "Failed to enter the installation directory.",
            ),
            LaunchError::SpawnFailed => String::from_str("Failed to execute 'npm' command."),
            LaunchError::WaitFailed => String::from_str("Failed to wait for the 'npm' command."),
            LaunchError::Interrupted => String::from_str("Launch was interrupted."),
        }
    }
}

/// Where a launch stands. Each phase but the last waits for the report on
/// one action.
#[derive(Clone, Copy, Debug, PartialEq, Eq)]
pub enum LaunchPhase {
    /// The installation directory is being entered.
    EnteringDir,
    /// The program is being started.
    Spawning,
    /// The child lives, its guard is armed, and it is being waited for.
    Waiting,
    /// The guard is being torn down; what the launch will give is settled.
    Closing(Result<ExitOutcome, LaunchError>),
    /// The launch is over.
    Finished(Result<ExitOutcome, LaunchError>),
}

/// What a launch was set up with.
pub ghost struct LaunchPlan {
    pub target: Seq<char>,
    pub caller_cwd: Seq<char>,
    pub forwarded: Seq<Seq<char>>,
}

/// The phase that follows `phase` when the driver reports `event`.
///
/// A failure before the child lives ends the launch at once. Once the child
/// lives, every report, whatever it is, leads to the teardown of the guard,
/// and the report on the teardown is not looked at.
pub open spec fn next_phase(phase: LaunchPhase, event: Event) -> LaunchPhase {
    match phase {
        LaunchPhase::EnteringDir => match event {
            Event::Succeeded => LaunchPhase::Spawning,
            Event::Missing | Event::Failed => LaunchPhase::Finished(
                Err(LaunchError::ChangeDirFailed),
            ),
            _ => LaunchPhase::Finished(Err(LaunchError::Interrupted)),
        },
        LaunchPhase::Spawning => match event {
            Event::Succeeded => LaunchPhase::Waiting,
            Event::Missing | Event::Failed => LaunchPhase::Finished(Err(LaunchError::SpawnFailed)),
            _ => LaunchPhase::Finished(Err(LaunchError::Interrupted)),
        },
        LaunchPhase::Waiting => match event {
            Event::Exited(outcome) => LaunchPhase::Closing(Ok(outcome)),
            Event::Missing | Event::Failed => LaunchPhase::Closing(Err(LaunchError::WaitFailed)),
            _ => LaunchPhase::Closing(Err(LaunchError::Interrupted)),
        },
        LaunchPhase::Closing(result) => LaunchPhase::Finished(result),
        LaunchPhase::Finished(result) => LaunchPhase::Finished(result),
    }
}

/// The action whose report `phase` waits for.
pub open spec fn action_for(plan: LaunchPlan, phase: LaunchPhase) -> ActionView {
    match phase {
        LaunchPhase::EnteringDir => ActionView::ChangeDir { path: plan.target },
        LaunchPhase::Spawning => ActionView::Spawn {
            program: PROGRAM@,
            args: invocation(plan.caller_cwd, plan.forwarded),
        },
        LaunchPhase::Waiting => ActionView::Wait,
        LaunchPhase::Closing(_) => ActionView::Terminate,
        LaunchPhase::Finished(_) => ActionView::Finish,
    }
}

/// The phase reached from the start after the reports `events`.
pub open spec fn replay(events: Seq<Event>) -> LaunchPhase
    decreases events.len(),
{
    if events.len() == 0 {
        LaunchPhase::EnteringDir
    } else {
        next_phase(replay(events.drop_last()), events.last())
    }
}

/// The actions that have been asked for after the reports `events`: the
/// first one, and one more for each report.
pub open spec fn issued(plan: LaunchPlan, events: Seq<Event>) -> Seq<ActionView> {
    Seq::new(events.len() + 1, |i: int| action_for(plan, replay(events.take(i))))
}

/// A launch in progress.
pub struct Launcher {
    target: AbsolutePath,
    caller_cwd: String,
    forwarded: Vec<String>,
    phase: LaunchPhase,
}

impl Launcher {
    /// What the launch was set up with.
    pub closed spec fn plan(&self) -> LaunchPlan {
        LaunchPlan {
            target: self.target@,
            caller_cwd: self.caller_cwd@,
            forwarded: self.forwarded.deep_view(),
        }
    }

    /// Where the launch stands.
    pub closed spec fn spec_phase(&self) -> LaunchPhase {
        self.phase
    }

    /// A launch of the program in `target`, on behalf of a caller in
    /// `caller_cwd` who passed `forwarded`. Nothing has been done yet.
    pub fn new(target: AbsolutePath, caller_cwd: String, forwarded: Vec<String>) -> (r: Launcher)
        ensures
            r.plan() == (LaunchPlan {
                target: target@,
                caller_cwd: caller_cwd@,
                forwarded: forwarded.deep_view(),
            }),
            r.spec_phase() == LaunchPhase::EnteringDir,
    {
        Launcher { target, caller_cwd, forwarded, phase: LaunchPhase::EnteringDir }
    }

    /// Where the launch stands.
    #[verifier::when_used_as_spec(spec_phase)]
    pub fn phase(&self) -> (r: LaunchPhase)
        ensures
            r == self.spec_phase(),
    {
        self.phase
    }

    /// Whether a child lives whose guard has not been torn down.
    pub fn child_live(&self) -> (r: bool)
        ensures
            r == (self.spec_phase() is Waiting),
    {
        match self.phase {
            LaunchPhase::Waiting => true,
            _ => false,
        }
    }

    /// What the launch gave, once it is over.
    pub fn result(&self) -> (r: Option<Result<ExitOutcome, LaunchError>>)
        ensures
            r == match self.spec_phase() {
                LaunchPhase::Finished(result) => Some(result),
                _ => None,
            },
    {
        match self.phase {
            LaunchPhase::Finished(result) => Some(result),
            _ => None,
        }
    }

    /// The action that the launch waits for. The first call gives the action
    /// to begin with.
    pub fn pending(&self) -> (r: Action)
        ensures
            r@ == action_for(self.plan(), self.spec_phase()),
    {
        match self.phase {
            LaunchPhase::EnteringDir => Action::ChangeDir { path: self.target.to_text() },
            LaunchPhase::Spawning => Action::Spawn {
                program: String::from_str(PROGRAM),
                args: invocation_args(self.caller_cwd.as_str(), &self.forwarded),
            },
            LaunchPhase::Waiting => Action::Wait,
            LaunchPhase::Closing(_) => Action::Terminate,
            LaunchPhase::Finished(_) => Action::Finish,
        }
    }

    /// Takes the driver's report on the pending action and says what to do
    /// next.
    pub fn step(&mut self, event: Event) -> (r: Action)
        ensures
            final(self).plan() == old(self).plan(),
            final(self).spec_phase() == next_phase(old(self).spec_phase(), event),
            r@ == action_for(final(self).plan(), final(self).spec_phase()),
    {
        let next: LaunchPhase = match self.phase {
            LaunchPhase::EnteringDir => match event {
                Event::Succeeded => LaunchPhase::Spawning,
                Event::Missing | Event::Failed => LaunchPhase::Finished(
                    Err(LaunchError::ChangeDirFailed),
                ),
                _ => LaunchPhase::Finished(Err(LaunchError::Interrupted)),
            },
            LaunchPhase::Spawning => match event {
                Event::Succeeded => LaunchPhase::Waiting,
                Event::Missing | Event::Failed => LaunchPhase::Finished(
                    Err(LaunchError::SpawnFailed),
                ),
                _ => LaunchPhase::Finished(Err(LaunchError::Interrupted)),
            },
            LaunchPhase::Waiting => match event {
                Event::Exited(outcome) => LaunchPhase::Closing(Ok(outcome)),
                Event::Missing | Event::Failed => LaunchPhase::Closing(
                    Err(LaunchError::WaitFailed),
                ),
                _ => LaunchPhase::Closing(Err(LaunchError::Interrupted)),
            },
            LaunchPhase::Closing(result) => LaunchPhase::Finished(result),
            LaunchPhase::Finished(result) => LaunchPhase::Finished(result),
        };
        self.phase = next;
        self.pending()
    }
}

/// How far a phase is along the launch.
pub open spec fn progress(phase: LaunchPhase) -> int {
    match phase {
        LaunchPhase::EnteringDir => 0,
        LaunchPhase::Spawning => 1,
        LaunchPhase::Waiting => 2,
        LaunchPhase::Closing(_) => 3,
        LaunchPhase::Finished(_) => 4,
    }
}

/// One report more moves the replay one phase on.
pub proof fn lemma_replay_step(events: Seq<Event>, i: int)
    requires
        0 <= i < events.len(),
    ensures
        replay(events.take(i + 1)) == next_phase(replay(events.take(i)), events[i]),
{
    assert(events.take(i + 1).drop_last() =~= events.take(i));
}

/// A launch never goes back: each report takes it further, until it is over.
pub proof fn lemma_progress_grows(events: Seq<Event>, i: int, j: int)
    requires
        0 <= i < j <= events.len(),
    ensures
        progress(replay(events.take(i))) < progress(replay(events.take(j))) || replay(
            events.take(j),
        ) is Finished,
    decreases j - i,
{
    lemma_replay_step(events, j - 1);
    if i < j - 1 {
        lemma_progress_grows(events, i, j - 1);
    }
}

/// The guard is torn down whichever way the wait ends: the action asked for
/// right after [`ActionView::Wait`] is [`ActionView::Terminate`], whatever
/// the driver reported, and `Terminate` is asked for at no other point.
pub proof fn law_teardown_follows_wait(plan: LaunchPlan, events: Seq<Event>, i: int)
    requires
        0 <= i < events.len(),
    ensures
        issued(plan, events)[i] is Wait <==> issued(plan, events)[i + 1] is Terminate,
        !(issued(plan, events)[0] is Terminate),
{
    lemma_replay_step(events, i);
    assert(events.take(0) =~= Seq::<Event>::empty());
}

/// Once a launch is over, no child is left behind: every wait that was asked
/// for was followed by the teardown of the guard.
pub proof fn law_finished_launch_leaves_no_child(plan: LaunchPlan, events: Seq<Event>)
    requires
        replay(events) is Finished,
    ensures
        forall|i: int|
            0 <= i <= events.len() && #[trigger] issued(plan, events)[i] is Wait ==> i
                < events.len() && issued(plan, events)[i + 1] is Terminate,
{
    assert(events.take(events.len() as int) =~= events);
    assert forall|i: int|
        0 <= i <= events.len() && #[trigger] issued(plan, events)[i] is Wait implies i
        < events.len() && issued(plan, events)[i + 1] is Terminate by {
        if i < events.len() {
            law_teardown_follows_wait(plan, events, i);
        }
    }
}

/// A launch starts at most one child, waits at most once, and tears its guard
/// down at most once.
pub proof fn law_single_child(plan: LaunchPlan, events: Seq<Event>, i: int, j: int)
    requires
        0 <= i < j <= events.len(),
    ensures
        !(issued(plan, events)[i] is Spawn && issued(plan, events)[j] is Spawn),
        !(issued(plan, events)[i] is Wait && issued(plan, events)[j] is Wait),
        !(issued(plan, events)[i] is Terminate && issued(plan, events)[j] is Terminate),
{
    lemma_progress_grows(events, i, j);
}

/// Tearing the guard down after the child has ended changes nothing: the
/// launch gives the outcome that the wait reported, whatever the teardown
/// and anything after it report.
pub proof fn law_teardown_keeps_outcome(
    events: Seq<Event>,
    outcome: ExitOutcome,
    later: Seq<Event>,
)
    requires
        replay(events) is Waiting,
        later.len() >= 1,
    ensures
        replay(events.push(Event::Exited(outcome))) == LaunchPhase::Closing(Ok(outcome)),
        replay(events.push(Event::Exited(outcome)) + later) == LaunchPhase::Finished(Ok(outcome)),
    decreases later.len(),
{
    let exited = events.push(Event::Exited(outcome));
    assert(exited.drop_last() =~= events);
    assert((exited + later).drop_last() =~= exited + later.drop_last());
    if later.len() == 1 {
        assert(exited + later.drop_last() =~= exited);
    } else {
        law_teardown_keeps_outcome(events, outcome, later.drop_last());
    }
}

/// The program receives the four fixed arguments, then the caller's
/// directory as its first positional argument, then every forwarded argument
/// in its place.
pub proof fn law_forwarding_order(caller_cwd: Seq<char>, forwarded: Seq<Seq<char>>)
    ensures
        invocation(caller_cwd, forwarded).len() == 5 + forwarded.len(),
        invocation(caller_cwd, forwarded)[0] == RUN_DIRECTIVE@,
        invocation(caller_cwd, forwarded)[1] == SUB_TARGET@,
        invocation(caller_cwd, forwarded)[2] == SILENT_FLAG@,
        invocation(caller_cwd, forwarded)[3] == ARG_SEPARATOR@,
        invocation(caller_cwd, forwarded)[4] == caller_cwd,
        forall|k: int|
            0 <= k < forwarded.len() ==> #[trigger] invocation(caller_cwd, forwarded)[5 + k]
                == forwarded[k],
{
}

} // verus!
