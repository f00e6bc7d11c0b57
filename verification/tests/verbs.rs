use harbomux::command::{Cmd, HiddenCmd};

#[test]
fn reads_each_verb() {
    assert_eq!(Cmd::new("harbour"), Some(Cmd::Harbour));
    assert_eq!(Cmd::new("help"), Some(Cmd::Help));
    assert_eq!(Cmd::new("start"), Some(Cmd::Start));
    assert_eq!(Cmd::new("test"), Some(Cmd::Test));
    assert_eq!(Cmd::new("--hidden"), Some(Cmd::Hidden));
}

#[test]
fn reads_no_other_word_as_a_verb() {
    for word in ["", "nonexistent", "Harbour", "HELP", "hidden", "-hidden", "help ", " help", "harbor", "setup"] {
        assert_eq!(Cmd::new(word), None);
    }
}

#[test]
fn verb_names() {
    assert_eq!(Cmd::Harbour.name(), "harbour");
    assert_eq!(Cmd::Help.name(), "help");
    assert_eq!(Cmd::Start.name(), "start");
    assert_eq!(Cmd::Test.name(), "test");
    assert_eq!(Cmd::Hidden.name(), "--hidden");
}

#[test]
fn verb_names_read_back() {
    for cmd in [Cmd::Harbour, Cmd::Help, Cmd::Start, Cmd::Test, Cmd::Hidden] {
        assert_eq!(Cmd::new(cmd.name()), Some(cmd));
    }
}

#[test]
fn reads_the_hidden_action() {
    assert_eq!(HiddenCmd::new("setup"), Some(HiddenCmd::Setup));
    assert_eq!(HiddenCmd::Setup.name(), "setup");
    assert_eq!(HiddenCmd::new(HiddenCmd::Setup.name()), Some(HiddenCmd::Setup));
}

#[test]
fn reads_no_other_word_as_a_hidden_action() {
    for word in ["", "Setup", "set-up", "setup ", "harbour", "--hidden"] {
        assert_eq!(HiddenCmd::new(word), None);
    }
}
