//! The closed set of verbs that the command line understands.

use vstd::prelude::*;
use crate::text::same_text;

verus! {

/// A top-level verb.
#[derive(Clone, Copy, Debug, PartialEq, Eq, Structural)]
pub enum Cmd {
    Harbour,
    Help,
    Start,
    Test,
    /// Reached only when this program calls itself inside a new session;
    /// it is listed nowhere.
    Hidden,
}

/// An action under the hidden verb.
#[derive(Clone, Copy, Debug, PartialEq, Eq, Structural)]
pub enum HiddenCmd {
    Setup,
}

/// The word on the command line that stands for `cmd`.
pub open spec fn cmd_word(cmd: Cmd) -> Seq<char> {
    match cmd {
        Cmd::Harbour => "harbour"@,
        Cmd::Help => "help"@,
        Cmd::Start => "start"@,
        Cmd::Test => "test"@,
        Cmd::Hidden => "--hidden"@,
    }
}

/// The verb that `word` stands for, if it is one.
pub open spec fn cmd_of(word: Seq<char>) -> Option<Cmd> {
    if word == "harbour"@ {
        Some(Cmd::Harbour)
    } else if word == "help"@ {
        Some(Cmd::Help)
    } else if word == "start"@ {
        Some(Cmd::Start)
    } else if word == "test"@ {
        Some(Cmd::Test)
    } else if word == "--hidden"@ {
        Some(Cmd::Hidden)
    } else {
        None
    }
}

/// The word that stands for the hidden action `cmd`.
pub open spec fn hidden_word(cmd: HiddenCmd) -> Seq<char> {
    match cmd {
        HiddenCmd::Setup => "setup"@,
    }
}

/// The hidden action that `word` stands for, if it is one.
pub open spec fn hidden_of(word: Seq<char>) -> Option<HiddenCmd> {
    if word == "setup"@ {
        Some(HiddenCmd::Setup)
    } else {
        None
    }
}

impl Cmd {
    /// Reads a verb. Only the five words are verbs, letter for letter.
    pub fn new(str: &str) -> (cmd: Option<Cmd>)
        ensures
            cmd == cmd_of(str@),
    {
        if same_text(str, "harbour") {
            Some(Cmd::Harbour)
        } else if same_text(str, "help") {
            Some(Cmd::Help)
        } else if same_text(str, "start") {
            Some(Cmd::Start)
        } else if same_text(str, "test") {
            Some(Cmd::Test)
        } else if same_text(str, "--hidden") {
            Some(Cmd::Hidden)
        } else {
            None
        }
    }

    /// The word that stands for this verb.
    pub fn name(&self) -> (word: &'static str)
        ensures
            word@ == cmd_word(*self),
    {
        match self {
            Cmd::Harbour => "harbour",
            Cmd::Help => "help",
            Cmd::Start => "start",
            Cmd::Test => "test",
            Cmd::Hidden => "--hidden",
        }
    }
}

impl HiddenCmd {
    /// Reads a hidden action.
    pub fn new(name: &str) -> (cmd: Option<HiddenCmd>)
        ensures
            cmd == hidden_of(name@),
    {
        if same_text(name, "setup") {
            Some(HiddenCmd::Setup)
        } else {
            None
        }
    }

    /// The word that stands for this action.
    pub fn name(&self) -> (word: &'static str)
        ensures
            word@ == hidden_word(*self),
    {
        match self {
            HiddenCmd::Setup => "setup",
        }
    }
}

/// The five words differ from one another.
pub proof fn lemma_words_differ()
    ensures
        forall|a: Cmd, b: Cmd| cmd_word(a) == cmd_word(b) ==> a == b,
{
    reveal_strlit("harbour");
    reveal_strlit("help");
    reveal_strlit("start");
    reveal_strlit("test");
    reveal_strlit("--hidden");
    assert forall|a: Cmd, b: Cmd| cmd_word(a) == cmd_word(b) implies a == b by {
        if a != b {
            assert(cmd_word(a).len() != cmd_word(b).len() || cmd_word(a)[0] != cmd_word(b)[0]);
        }
    }
}

/// Reading the word of a verb gives that verb back.
pub proof fn lemma_cmd_round_trip(cmd: Cmd)
    ensures
        cmd_of(cmd_word(cmd)) == Some(cmd),
{
    lemma_words_differ();
    assert(cmd_word(Cmd::Harbour) == "harbour"@);
    assert(cmd_word(Cmd::Help) == "help"@);
    assert(cmd_word(Cmd::Start) == "start"@);
    assert(cmd_word(Cmd::Test) == "test"@);
    assert(cmd_word(Cmd::Hidden) == "--hidden"@);
}

/// A word is read as a verb only if it is that verb's word.
pub proof fn lemma_cmd_of_sound(word: Seq<char>)
    ensures
        cmd_of(word) matches Some(cmd) ==> cmd_word(cmd) == word,
{
}

/// Reading the word of a hidden action gives that action back, and no
/// other word is read as one.
pub proof fn lemma_hidden_round_trip(cmd: HiddenCmd, word: Seq<char>)
    ensures
        hidden_of(hidden_word(cmd)) == Some(cmd),
        hidden_of(word) matches Some(c) ==> hidden_word(c) == word,
{
}

} // verus!
