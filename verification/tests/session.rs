use harbomux::context::{classify, ExecutionContext};
use harbomux::exec::{Invocation, Mode, Reply};
use harbomux::handshake::launch;
use harbomux::os::Os;
use harbomux::sentinel::BootstrapSentinel;
use harbomux::session::{Action, Ending, Phase, Session, EXIT_FAILURE, EXIT_OK, EXIT_USAGE};
use harbomux::tmux::Tmux;

const BINARY: &str = "/usr/bin/harbomux";

fn words(items: &[&str]) -> Vec<String> {
    items.iter().map(|item| item.to_string()).collect()
}

fn env_of(pairs: &[(&str, &str)]) -> Os {
    let mut os = Os::new();
    for (key, value) in pairs {
        os.set_env(key, value);
    }
    os
}

fn session_in(pairs: &[(&str, &str)]) -> Session {
    Session::new(env_of(pairs), BINARY.to_string(), None, false)
}

fn finished(code: Option<i32>, stdout: &str, stderr: &str) -> Reply {
    Reply::Finished { code, stdout: stdout.to_string(), stderr: stderr.to_string() }
}

fn absent() -> Reply {
    finished(Some(1), "no server running on /tmp/tmux-0/harbonizer\n", "")
}

fn alive() -> Reply {
    finished(Some(0), "", "")
}

fn say(text: &str) -> Action {
    Action::Say(text.to_string())
}

fn count(actions: &[Action], wanted: &Invocation) -> usize {
    actions.iter().filter(|action| matches!(action, Action::Exec(inv) if inv == wanted)).count()
}

fn creation() -> Invocation {
    launch(&Tmux::managed(), BINARY, &None)
}

fn attach() -> Invocation {
    Tmux::managed().attach()
}

#[test]
fn exit_statuses() {
    assert_eq!(EXIT_OK, 0);
    assert_eq!(EXIT_FAILURE, 1);
    assert_eq!(EXIT_USAGE, 2);
}

#[test]
fn ending_codes() {
    assert_eq!(Ending::Done.code(), 0);
    assert_eq!(Ending::SetupRejected.code(), 0);
    assert_eq!(Ending::UsageError.code(), 2);
    assert_eq!(Ending::LaunchFailure.code(), 1);
    assert_eq!(Ending::SubprocessIoError.code(), 1);
}

#[test]
fn new_session_is_idle() {
    let session = session_in(&[("TMUX", "x")]);
    assert_eq!(session.phase(), Phase::Idle);
    assert!(!session.waiting());
    assert_eq!(session.context(), None);
    assert_eq!(session.os().get_env("TMUX"), Some("x".to_string()));
}

#[test]
fn help_prints_usage_and_succeeds() {
    let mut session = session_in(&[]);
    let actions = session.dispatch(&words(&["help"]));
    assert_eq!(actions, vec![say("Help!"), Action::Exit(Ending::Done)]);
    assert_eq!(Ending::Done.code(), 0);
    assert_eq!(session.phase(), Phase::Finished);
}

#[test]
fn unknown_verb_is_named_and_fails() {
    let mut session = session_in(&[]);
    let actions = session.dispatch(&words(&["nonexistent"]));
    assert_eq!(
        actions,
        vec![
            say("[nonexistent] is not a recognized command!\n  Help:"),
            say("Help!"),
            Action::Exit(Ending::UsageError),
        ]
    );
    assert_eq!(session.phase(), Phase::Finished);
    match &actions[0] {
        Action::Say(text) => assert!(text.contains("nonexistent")),
        other => panic!("unexpected action {:?}", other),
    }
    match actions[2] {
        Action::Exit(ending) => assert_ne!(ending.code(), 0),
        _ => panic!("no exit"),
    }
}

#[test]
fn unknown_verb_ignores_what_follows() {
    let mut session = session_in(&[]);
    let actions = session.dispatch(&words(&["Help", "help"]));
    assert_eq!(actions[0], say("[Help] is not a recognized command!\n  Help:"));
    assert_eq!(actions[2], Action::Exit(Ending::UsageError));
}

#[test]
fn usage_text_hides_the_hidden_verb() {
    let mut session = session_in(&[]);
    for action in session.dispatch(&words(&["nonexistent"])) {
        if let Action::Say(text) = action {
            assert!(!text.contains("--hidden"));
            assert!(!text.contains("setup"));
        }
    }
}

#[test]
fn missing_verb_is_a_usage_error() {
    let mut session = session_in(&[]);
    let actions = session.dispatch(&Vec::new());
    assert_eq!(actions, vec![say("No command given!\n  Help:"), say("Help!"), Action::Exit(Ending::UsageError)]);
    assert_eq!(session.phase(), Phase::Finished);
}

#[test]
fn start_is_reserved() {
    let mut session = session_in(&[]);
    assert_eq!(session.dispatch(&words(&["start"])), vec![say("Start!"), Action::Exit(Ending::Done)]);
}

#[test]
fn test_reports_the_surroundings() {
    let mut session = Session::new(env_of(&[("TMUX", "x")]), BINARY.to_string(), None, true);
    assert_eq!(
        session.dispatch(&words(&["test"])),
        vec![say("in harb dir: true"), say("context: plain-multiplexer"), Action::Exit(Ending::Done)]
    );
    assert_eq!(session.context(), Some(ExecutionContext::PlainMultiplexer));
    let mut bare = session_in(&[]);
    assert_eq!(
        bare.dispatch(&words(&["test"])),
        vec![say("in harb dir: false"), say("context: bare"), Action::Exit(Ending::Done)]
    );
    let mut nested = session_in(&[("HARBOMUX", "1")]);
    assert_eq!(
        nested.dispatch(&words(&["test"])),
        vec![say("in harb dir: false"), say("context: nested"), Action::Exit(Ending::Done)]
    );
}

#[test]
fn harbour_inside_the_managed_server_does_nothing() {
    let mut session = session_in(&[("HARBOMUX", "1"), ("TMUX", "x")]);
    let actions = session.dispatch(&words(&["harbour"]));
    assert_eq!(actions, vec![say("Already in harbomux!"), Action::Exit(Ending::Done)]);
    assert_eq!(session.phase(), Phase::Finished);
    assert!(!session.waiting());
}

#[test]
fn harbour_inside_a_foreign_session_leaves_it_first() {
    let mut session = session_in(&[("TMUX", "/tmp/tmux-0/default,1,0")]);
    let actions = session.dispatch(&words(&["harbour"]));
    assert_eq!(
        actions,
        vec![
            say("in tmux"),
            Action::Exec(Invocation {
                mode: Mode::Capture,
                argv: words(&["sh", "-c", "tmux detach -E \"/usr/bin/harbomux harbour\""]),
            }),
        ]
    );
    assert_eq!(session.phase(), Phase::Detaching);
    assert!(session.waiting());
    assert_eq!(session.resume(&finished(Some(0), "", "")), vec![Action::Exit(Ending::Done)]);
    assert_eq!(session.phase(), Phase::Finished);
}

#[test]
fn detach_that_complains_fails() {
    let mut session = session_in(&[("TMUX", "x")]);
    session.dispatch(&words(&["harbour"]));
    assert_eq!(
        session.resume(&finished(Some(1), "", " no current client\n")),
        vec![say("no current client"), Action::Exit(Ending::LaunchFailure)]
    );
    assert_eq!(session.phase(), Phase::Finished);
}

#[test]
fn detach_that_cannot_start_fails() {
    let mut session = session_in(&[("TMUX", "x")]);
    session.dispatch(&words(&["harbour"]));
    assert_eq!(
        session.resume(&Reply::Failed("sh: not found".to_string())),
        vec![say("sh: not found"), Action::Exit(Ending::SubprocessIoError)]
    );
}

#[test]
fn harbour_in_a_bare_shell_probes_first() {
    let mut session = session_in(&[]);
    let actions = session.dispatch(&words(&["harbour"]));
    assert_eq!(actions, vec![Action::Exec(Tmux::managed().probe())]);
    assert_eq!(session.phase(), Phase::Probing);
    assert_eq!(session.context(), Some(ExecutionContext::Bare));
}

#[test]
fn bare_and_absent_creates_the_session_once() {
    let mut session = session_in(&[]);
    let actions = session.replay(&words(&["harbour"]), &vec![absent(), finished(Some(0), "", "")]);
    assert_eq!(
        actions,
        vec![
            Action::Exec(Tmux::managed().probe()),
            say("launching..."),
            Action::SetEnv { key: "HARBOMUX".to_string(), value: "pre-setup".to_string() },
            Action::Exec(creation()),
            say("not in tmux"),
            Action::Exit(Ending::Done),
        ]
    );
    assert_eq!(count(&actions, &creation()), 1);
    assert_eq!(count(&actions, &attach()), 0);
    assert_eq!(session.phase(), Phase::Finished);
    assert_eq!(session.os().get_env("HARBOMUX"), Some("pre-setup".to_string()));
}

#[test]
fn bare_and_absent_step_by_step() {
    let mut session = session_in(&[("HOME", "/root")]);
    session.dispatch(&words(&["harbour"]));
    let launched = session.resume(&absent());
    assert_eq!(launched.len(), 3);
    assert_eq!(launched[2], Action::Exec(creation()));
    assert_eq!(session.phase(), Phase::Launching);
    assert!(session.waiting());
    let ended = session.resume(&finished(Some(0), "", ""));
    assert_eq!(ended, vec![say("not in tmux"), Action::Exit(Ending::Done)]);
    assert!(!session.waiting());
}

#[test]
fn launch_uses_the_configuration_file() {
    let config = Some("/root/.config/harbomux".to_string());
    let mut session = Session::new(Os::new(), BINARY.to_string(), config.clone(), false);
    let actions = session.replay(&words(&["harbour"]), &vec![absent()]);
    assert_eq!(actions.len(), 4);
    assert_eq!(actions[3], Action::Exec(launch(&Tmux::managed(), BINARY, &config)));
    assert_eq!(session.phase(), Phase::Launching);
}

#[test]
fn launch_that_fails_is_reported() {
    let mut session = session_in(&[]);
    let actions = session.replay(&words(&["harbour"]), &vec![absent(), finished(Some(1), "", "")]);
    assert_eq!(actions[4..], [say("Could not launch harbomux!"), Action::Exit(Ending::LaunchFailure)]);
    assert_eq!(count(&actions, &creation()), 1);
    assert_eq!(count(&actions, &attach()), 0);
    let mut killed = session_in(&[]);
    let actions = killed.replay(&words(&["harbour"]), &vec![absent(), finished(None, "", "")]);
    assert_eq!(actions[4..], [say("Could not launch harbomux!"), Action::Exit(Ending::LaunchFailure)]);
}

#[test]
fn launch_that_cannot_start_is_fatal() {
    let mut session = session_in(&[]);
    let actions = session.replay(
        &words(&["harbour"]),
        &vec![absent(), Reply::Failed("No such file or directory (os error 2)".to_string())],
    );
    assert_eq!(actions[4..], [say("No such file or directory (os error 2)"), Action::Exit(Ending::SubprocessIoError)]);
    assert_eq!(session.phase(), Phase::Finished);
}

#[test]
fn bare_and_alive_attaches() {
    let mut session = session_in(&[]);
    let actions = session.replay(&words(&["harbour"]), &vec![alive(), finished(Some(0), "", "")]);
    assert_eq!(
        actions,
        vec![
            Action::Exec(Tmux::managed().probe()),
            Action::Exec(attach()),
            Action::Exit(Ending::Done),
        ]
    );
    assert_eq!(count(&actions, &attach()), 1);
    assert_eq!(count(&actions, &creation()), 0);
    assert_eq!(session.os().get_env("HARBOMUX"), None);
}

#[test]
fn attach_that_fails_is_reported() {
    let mut session = session_in(&[]);
    let actions = session.replay(&words(&["harbour"]), &vec![alive(), finished(Some(1), "", "")]);
    assert_eq!(actions[2..], [say("Could not attach to harbomux!"), Action::Exit(Ending::LaunchFailure)]);
    assert_eq!(count(&actions, &creation()), 0);
}

#[test]
fn probe_that_cannot_start_is_fatal() {
    let mut session = session_in(&[]);
    let actions = session.replay(
        &words(&["harbour"]),
        &vec![Reply::Failed("sh: not found".to_string()), alive()],
    );
    assert_eq!(
        actions,
        vec![
            Action::Exec(Tmux::managed().probe()),
            say("sh: not found"),
            Action::Exit(Ending::SubprocessIoError),
        ]
    );
    assert_eq!(session.phase(), Phase::Finished);
}

#[test]
fn replay_stops_when_the_run_is_over() {
    let mut session = session_in(&[]);
    let actions = session.replay(&words(&["help"]), &vec![alive(), alive()]);
    assert_eq!(actions, vec![say("Help!"), Action::Exit(Ending::Done)]);
}

#[test]
fn replay_without_reports_is_the_first_step() {
    let mut session = session_in(&[]);
    let actions = session.replay(&words(&["harbour"]), &Vec::new());
    assert_eq!(actions, vec![Action::Exec(Tmux::managed().probe())]);
    assert_eq!(session.phase(), Phase::Probing);
}

#[test]
fn reply_without_a_command_fails() {
    let mut session = session_in(&[]);
    assert_eq!(session.resume(&alive()), vec![say("No command was waiting!"), Action::Exit(Ending::UsageError)]);
    assert_eq!(session.phase(), Phase::Finished);
    assert_eq!(session.resume(&alive()), vec![say("No command was waiting!"), Action::Exit(Ending::UsageError)]);
}

#[test]
fn classification_survives_the_launch() {
    let mut session = session_in(&[]);
    session.replay(&words(&["harbour"]), &vec![absent()]);
    assert_eq!(classify(session.os()), ExecutionContext::Nested);
    assert_eq!(session.context(), Some(ExecutionContext::Bare));
    let again = session.dispatch(&words(&["harbour"]));
    assert_eq!(again, vec![Action::Exec(Tmux::managed().probe())]);
    let report = session.dispatch(&words(&["test"]));
    assert_eq!(report[1], say("context: bare"));
}

#[test]
fn hidden_setup_runs_once() {
    let mut session = session_in(&[("HARBOMUX", "pre-setup")]);
    let once = session.dispatch(&words(&["--hidden", "setup"]));
    assert_eq!(
        once,
        vec![
            say("setup session..."),
            Action::SetEnv { key: "HARBOMUX".to_string(), value: "1".to_string() },
            Action::Exit(Ending::Done),
        ]
    );
    assert_eq!(BootstrapSentinel::observe(session.os()), BootstrapSentinel::Ready);
    let twice = session.dispatch(&words(&["--hidden", "setup"]));
    assert_eq!(twice, vec![say("Setup is not due!"), Action::Exit(Ending::SetupRejected)]);
    assert_eq!(session.os().get_env("HARBOMUX"), Some("1".to_string()));
}

#[test]
fn hidden_setup_in_a_later_process_is_rejected() {
    let mut session = session_in(&[("HARBOMUX", "1")]);
    let actions = session.dispatch(&words(&["--hidden", "setup"]));
    assert_eq!(actions, vec![say("Setup is not due!"), Action::Exit(Ending::SetupRejected)]);
    assert_eq!(session.os().get_env("HARBOMUX"), Some("1".to_string()));
}

#[test]
fn hidden_setup_without_sentinel_is_rejected() {
    let mut session = session_in(&[("TMUX", "x")]);
    let actions = session.dispatch(&words(&["--hidden", "setup"]));
    assert_eq!(actions, vec![say("Setup is not due!"), Action::Exit(Ending::SetupRejected)]);
    assert_eq!(session.os().get_env("HARBOMUX"), None);
    assert_eq!(session.phase(), Phase::Finished);
}

#[test]
fn hidden_verb_without_a_known_action() {
    let mut session = session_in(&[("HARBOMUX", "pre-setup")]);
    assert_eq!(
        session.dispatch(&words(&["--hidden", "teardown"])),
        vec![say("No hidden func found!"), Action::Exit(Ending::Done)]
    );
    assert_eq!(
        session.dispatch(&words(&["--hidden"])),
        vec![say("No hidden func found!"), Action::Exit(Ending::Done)]
    );
    assert_eq!(session.os().get_env("HARBOMUX"), Some("pre-setup".to_string()));
}

#[test]
fn every_step_ends_in_a_command_or_the_exit() {
    let verbs = ["harbour", "help", "start", "test", "--hidden", "nonexistent"];
    let envs: [&[(&str, &str)]; 3] = [&[], &[("TMUX", "x")], &[("HARBOMUX", "pre-setup")]];
    for env in envs {
        for verb in verbs {
            let mut session = session_in(env);
            let actions = session.replay(&words(&[verb, "setup"]), &vec![absent(), alive()]);
            assert!(matches!(actions.last(), Some(Action::Exit(_))));
            assert_eq!(session.phase(), Phase::Finished);
            let exits = actions.iter().filter(|action| matches!(action, Action::Exit(_))).count();
            assert_eq!(exits, 1);
        }
    }
}

#[test]
fn written_variables_match_the_environment() {
    let mut session = session_in(&[]);
    let actions = session.replay(&words(&["harbour"]), &vec![absent(), alive()]);
    let mut mirror = Os::new();
    for action in &actions {
        if let Action::SetEnv { key, value } = action {
            mirror.set_env(key, value);
        }
    }
    assert_eq!(mirror.get_env("HARBOMUX"), session.os().get_env("HARBOMUX"));
}
