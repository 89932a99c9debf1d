use cargo_watch_plus::launch::{
    forwarded_args, invocation_args, LaunchError, LaunchPhase, Launcher, ARG_SEPARATOR, PROGRAM,
    RESERVED_ARGS, RUN_DIRECTIVE, SILENT_FLAG, SUB_TARGET,
};
use cargo_watch_plus::path::AbsolutePath;
use cargo_watch_plus::protocol::{Action, Event, ExitOutcome, NO_CODE_EXIT};

fn texts(items: &[&str]) -> Vec<String> {
    items.iter().map(|item| item.to_string()).collect()
}

fn launcher(forwarded: &[&str]) -> Launcher {
    let target = AbsolutePath::new(String::from("/home/alice/.cargo/bin/cargo-watch-plus-js"));
    Launcher::new(target.unwrap(), String::from("/work/project"), texts(forwarded))
}

fn waiting_launcher() -> Launcher {
    let mut launch = launcher(&[]);
    assert_eq!(launch.step(Event::Succeeded).clone(), launch.pending());
    assert_eq!(launch.step(Event::Succeeded), Action::Wait);
    launch
}

#[test]
fn argument_forwarding_order() {
    let args = invocation_args("/work/project", &texts(&["--watch", "src"]));
    assert_eq!(
        args,
        texts(&["run", "start", "--silent", "--", "/work/project", "--watch", "src"])
    );
}

#[test]
fn invocation_uses_the_fixed_arguments() {
    let args = invocation_args("/w", &texts(&[]));
    assert_eq!(args, texts(&[RUN_DIRECTIVE, SUB_TARGET, SILENT_FLAG, ARG_SEPARATOR, "/w"]));
    assert_eq!(args.len(), 5);
}

#[test]
fn invocation_passes_caller_directory_as_one_argument() {
    let args = invocation_args("/work/my project", &texts(&["a b", ""]));
    assert_eq!(args[4], "/work/my project");
    assert_eq!(args[5], "a b");
    assert_eq!(args[6], "");
    assert_eq!(args.len(), 7);
}

#[test]
fn forwarded_args_strip_program_and_reserved_slot() {
    let argv = texts(&["cargo-watch-plus", "watch-plus", "--watch", "src"]);
    assert_eq!(forwarded_args(&argv), texts(&["--watch", "src"]));
    assert_eq!(RESERVED_ARGS, 2);
}

#[test]
fn forwarded_args_of_short_command_line_are_empty() {
    assert_eq!(forwarded_args(&texts(&[])), texts(&[]));
    assert_eq!(forwarded_args(&texts(&["tool"])), texts(&[]));
    assert_eq!(forwarded_args(&texts(&["tool", "slot"])), texts(&[]));
}

#[test]
fn forwarded_args_keep_order_and_repeats() {
    let argv = texts(&["tool", "slot", "b", "a", "b", "--", "-x"]);
    assert_eq!(forwarded_args(&argv), texts(&["b", "a", "b", "--", "-x"]));
}

#[test]
fn launch_begins_by_entering_the_installation_directory() {
    let launch = launcher(&[]);
    assert_eq!(launch.phase(), LaunchPhase::EnteringDir);
    assert_eq!(
        launch.pending(),
        Action::ChangeDir { path: String::from("/home/alice/.cargo/bin/cargo-watch-plus-js") }
    );
    assert_eq!(launch.result(), None);
    assert!(!launch.child_live());
}

#[test]
fn launch_runs_to_the_childs_outcome() {
    let mut launch = launcher(&["--watch", "src"]);
    let spawn = launch.step(Event::Succeeded);
    assert_eq!(
        spawn,
        Action::Spawn {
            program: String::from(PROGRAM),
            args: texts(&["run", "start", "--silent", "--", "/work/project", "--watch", "src"]),
        }
    );
    assert_eq!(launch.phase(), LaunchPhase::Spawning);
    assert_eq!(launch.step(Event::Succeeded), Action::Wait);
    assert!(launch.child_live());
    let outcome = ExitOutcome { code: Some(3) };
    assert_eq!(launch.step(Event::Exited(outcome)), Action::Terminate);
    assert_eq!(launch.phase(), LaunchPhase::Closing(Ok(outcome)));
    assert!(!launch.child_live());
    assert_eq!(launch.result(), None);
    assert_eq!(launch.step(Event::Succeeded), Action::Finish);
    assert_eq!(launch.result(), Some(Ok(outcome)));
    assert_eq!(launch.phase(), LaunchPhase::Finished(Ok(outcome)));
}

#[test]
fn guard_termination_on_success_is_a_no_op() {
    let outcome = ExitOutcome { code: Some(0) };
    for report in [Event::Succeeded, Event::Failed, Event::Missing, Event::Interrupted] {
        let mut launch = waiting_launcher();
        assert_eq!(launch.step(Event::Exited(outcome)), Action::Terminate);
        assert_eq!(launch.step(report), Action::Finish);
        assert_eq!(launch.result(), Some(Ok(outcome)));
    }
}

#[test]
fn guard_termination_on_early_abort() {
    let mut launch = waiting_launcher();
    assert!(launch.child_live());
    assert_eq!(launch.step(Event::Interrupted), Action::Terminate);
    assert!(!launch.child_live());
    assert_eq!(launch.step(Event::Succeeded), Action::Finish);
    assert_eq!(launch.result(), Some(Err(LaunchError::Interrupted)));
}

#[test]
fn failed_wait_tears_the_guard_down_first() {
    let mut launch = waiting_launcher();
    assert_eq!(launch.step(Event::Failed), Action::Terminate);
    assert_eq!(launch.phase(), LaunchPhase::Closing(Err(LaunchError::WaitFailed)));
    assert_eq!(launch.step(Event::Succeeded), Action::Finish);
    assert_eq!(launch.result(), Some(Err(LaunchError::WaitFailed)));
}

#[test]
fn unexpected_report_while_waiting_tears_the_guard_down() {
    let mut launch = waiting_launcher();
    assert_eq!(launch.step(Event::Located(String::from("/usr/bin/npm"))), Action::Terminate);
    assert_eq!(launch.step(Event::Succeeded), Action::Finish);
    assert_eq!(launch.result(), Some(Err(LaunchError::Interrupted)));
}

#[test]
fn failed_spawn_ends_the_launch_without_a_child() {
    for report in [Event::Failed, Event::Missing] {
        let mut launch = launcher(&[]);
        launch.step(Event::Succeeded);
        assert_eq!(launch.step(report), Action::Finish);
        assert_eq!(launch.result(), Some(Err(LaunchError::SpawnFailed)));
        assert!(!launch.child_live());
    }
}

#[test]
fn failed_change_of_directory_ends_the_launch() {
    for report in [Event::Failed, Event::Missing] {
        let mut launch = launcher(&[]);
        assert_eq!(launch.step(report), Action::Finish);
        assert_eq!(launch.result(), Some(Err(LaunchError::ChangeDirFailed)));
    }
}

#[test]
fn interruption_before_the_child_lives_asks_for_no_teardown() {
    let mut launch = launcher(&[]);
    assert_eq!(launch.step(Event::Interrupted), Action::Finish);
    assert_eq!(launch.result(), Some(Err(LaunchError::Interrupted)));
    let mut launch = launcher(&[]);
    launch.step(Event::Succeeded);
    assert_eq!(launch.step(Event::Interrupted), Action::Finish);
    assert_eq!(launch.result(), Some(Err(LaunchError::Interrupted)));
}

#[test]
fn finished_launch_stays_finished() {
    let mut launch = waiting_launcher();
    let outcome = ExitOutcome { code: None };
    launch.step(Event::Exited(outcome));
    launch.step(Event::Succeeded);
    for report in [Event::Succeeded, Event::Exited(ExitOutcome { code: Some(9) }), Event::Failed] {
        assert_eq!(launch.step(report), Action::Finish);
        assert_eq!(launch.result(), Some(Ok(outcome)));
    }
}

#[test]
fn exit_code_is_the_childs_own() {
    assert_eq!(ExitOutcome { code: Some(0) }.exit_code(), 0);
    assert_eq!(ExitOutcome { code: Some(7) }.exit_code(), 7);
    assert_eq!(ExitOutcome { code: Some(-1) }.exit_code(), -1);
}

#[test]
fn exit_code_of_a_child_without_one() {
    assert_eq!(ExitOutcome { code: None }.exit_code(), 1);
    assert_eq!(NO_CODE_EXIT, 1);
}

#[test]
fn launch_error_messages() {
    assert_eq!(
        LaunchError::ChangeDirFailed.message(),
        "Failed to enter the installation directory."
    );
    assert_eq!(LaunchError::SpawnFailed.message(), "Failed to execute 'npm' command.");
    assert_eq!(LaunchError::WaitFailed.message(), "Failed to wait for the 'npm' command.");
    assert_eq!(LaunchError::Interrupted.message(), "Launch was interrupted.");
}
