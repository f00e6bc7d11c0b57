use harbomux::os::Os;
use harbomux::sentinel::{arm, setup, BootstrapSentinel, SetupRejected, PRE_SETUP, READY};

#[test]
fn sentinel_values() {
    assert_eq!(PRE_SETUP, "pre-setup");
    assert_eq!(READY, "1");
}

#[test]
fn parse_absent() {
    assert_eq!(BootstrapSentinel::parse(&None), BootstrapSentinel::Absent);
}

#[test]
fn parse_pre_setup() {
    assert_eq!(
        BootstrapSentinel::parse(&Some("pre-setup".to_string())),
        BootstrapSentinel::PreSetup
    );
}

#[test]
fn parse_ready() {
    assert_eq!(BootstrapSentinel::parse(&Some("1".to_string())), BootstrapSentinel::Ready);
}

#[test]
fn parse_other_values() {
    for text in ["", "0", "true", "Pre-Setup", "pre-setup ", " 1", "11"] {
        assert_eq!(BootstrapSentinel::parse(&Some(text.to_string())), BootstrapSentinel::Unknown);
    }
}

#[test]
fn observe_reads_the_sentinel_variable() {
    let mut os = Os::new();
    assert_eq!(BootstrapSentinel::observe(&os), BootstrapSentinel::Absent);
    os.set_env("TMUX", "pre-setup");
    assert_eq!(BootstrapSentinel::observe(&os), BootstrapSentinel::Absent);
    os.set_env("HARBOMUX", "pre-setup");
    assert_eq!(BootstrapSentinel::observe(&os), BootstrapSentinel::PreSetup);
    os.set_env("HARBOMUX", "1");
    assert_eq!(BootstrapSentinel::observe(&os), BootstrapSentinel::Ready);
}

#[test]
fn arm_writes_pre_setup() {
    let mut os = Os::new();
    os.set_env("HOME", "/root");
    arm(&mut os);
    assert_eq!(os.get_env("HARBOMUX"), Some("pre-setup".to_string()));
    assert_eq!(os.get_env("HOME"), Some("/root".to_string()));
}

#[test]
fn setup_advances_the_sentinel_once() {
    let mut os = Os::new();
    os.set_env("HARBOMUX", "pre-setup");
    assert_eq!(setup(&mut os), Ok(()));
    assert_eq!(os.get_env("HARBOMUX"), Some("1".to_string()));
    assert_eq!(setup(&mut os), Err(SetupRejected { observed: BootstrapSentinel::Ready }));
    assert_eq!(os.get_env("HARBOMUX"), Some("1".to_string()));
    assert_eq!(setup(&mut os), Err(SetupRejected { observed: BootstrapSentinel::Ready }));
    assert_eq!(os.get_env("HARBOMUX"), Some("1".to_string()));
}

#[test]
fn setup_is_rejected_when_the_sentinel_is_absent() {
    let mut os = Os::new();
    os.set_env("TMUX", "x");
    assert_eq!(setup(&mut os), Err(SetupRejected { observed: BootstrapSentinel::Absent }));
    assert_eq!(os.get_env("HARBOMUX"), None);
    assert_eq!(os.get_env("TMUX"), Some("x".to_string()));
}

#[test]
fn setup_is_rejected_on_an_unknown_value() {
    let mut os = Os::new();
    os.set_env("HARBOMUX", "yes");
    assert_eq!(setup(&mut os), Err(SetupRejected { observed: BootstrapSentinel::Unknown }));
    assert_eq!(os.get_env("HARBOMUX"), Some("yes".to_string()));
}

#[test]
fn arm_then_setup_completes_the_handshake() {
    let mut os = Os::new();
    arm(&mut os);
    assert_eq!(BootstrapSentinel::observe(&os), BootstrapSentinel::PreSetup);
    assert_eq!(setup(&mut os), Ok(()));
    assert_eq!(BootstrapSentinel::observe(&os), BootstrapSentinel::Ready);
}

#[test]
fn arm_after_ready_makes_setup_due_again() {
    let mut os = Os::new();
    os.set_env("HARBOMUX", "1");
    arm(&mut os);
    assert_eq!(setup(&mut os), Ok(()));
}
