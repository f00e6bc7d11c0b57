//! The process executor's interface: what the library asks to be run, what
//! comes back, and how a result is read.

use vstd::prelude::*;
use vstd::string::*;
use crate::os::Os;
use crate::text::{trim, trim_spec};

verus! {

/// How a command is to be run.
#[derive(Clone, Copy, Debug, PartialEq, Eq, Structural)]
pub enum Mode {
    /// Run to the end; what it writes is of no interest.
    Run,
    /// Run to the end and hand back what it wrote.
    Capture,
    /// Run on the caller's terminal and wait until it ends.
    Spawn,
}

/// A command for the executor: a program, its arguments, and how to run it.
#[derive(Clone, Debug, PartialEq, Eq)]
pub struct Invocation {
    pub mode: Mode,
    pub argv: Vec<String>,
}

/// An invocation as plain values.
pub struct InvocationView {
    pub mode: Mode,
    pub argv: Seq<Seq<char>>,
}

/// The texts that a sequence of strings holds.
pub open spec fn texts(words: Seq<String>) -> Seq<Seq<char>> {
    Seq::new(words.len(), |i: int| words[i]@)
}

impl View for Invocation {
    type V = InvocationView;

    open spec fn view(&self) -> InvocationView {
        InvocationView { mode: self.mode, argv: texts(self.argv@) }
    }
}

/// What the executor reports of one invocation.
#[derive(Clone, Debug, PartialEq, Eq)]
pub enum Reply {
    /// The program could not be started; the text is the system's message.
    Failed(String),
    /// The program ran and ended. `code` is its exit code, if it left one;
    /// the two texts are what it wrote, where that was captured.
    Finished { code: Option<i32>, stdout: String, stderr: String },
}

/// Why a command gave no result.
#[derive(Clone, Debug, PartialEq, Eq)]
pub enum ExecError {
    /// The program could not be started; the text is the system's message.
    Io(String),
    /// The program ran and reported an error of its own, which is the text.
    Reported(String),
}

/// An error as plain values.
pub enum ExecErrorView {
    Io(Seq<char>),
    Reported(Seq<char>),
}

impl View for ExecError {
    type V = ExecErrorView;

    open spec fn view(&self) -> ExecErrorView {
        match *self {
            ExecError::Io(why) => ExecErrorView::Io(why@),
            ExecError::Reported(why) => ExecErrorView::Reported(why@),
        }
    }
}

/// What an error has to say.
pub open spec fn message_spec(error: ExecErrorView) -> Seq<char> {
    match error {
        ExecErrorView::Io(why) => why,
        ExecErrorView::Reported(why) => why,
    }
}

impl ExecError {
    /// What this error has to say.
    pub fn message(&self) -> (text: &str)
        ensures
            text@ == message_spec(self@),
    {
        match self {
            ExecError::Io(why) => why.as_str(),
            ExecError::Reported(why) => why.as_str(),
        }
    }
}

/// Whether a command ran at all: it did once it was started, whatever it
/// did then.
pub open spec fn ran_spec(reply: Reply) -> Result<(), ExecErrorView> {
    match reply {
        Reply::Failed(why) => Err(ExecErrorView::Io(why@)),
        Reply::Finished { .. } => Ok(()),
    }
}

/// What a captured command said. A command that wrote nothing to its error
/// stream gives its output, trimmed; one that wrote there gives that text,
/// trimmed, as the error it reported.
pub open spec fn captured_spec(reply: Reply) -> Result<Seq<char>, ExecErrorView> {
    match reply {
        Reply::Failed(why) => Err(ExecErrorView::Io(why@)),
        Reply::Finished { stdout, stderr, .. } => if stderr@.len() == 0 {
            Ok(trim_spec(stdout@))
        } else {
            Err(ExecErrorView::Reported(trim_spec(stderr@)))
        },
    }
}

/// How a command on the terminal ended: its exit code, if it left one.
pub open spec fn status_spec(reply: Reply) -> Result<Option<i32>, ExecErrorView> {
    match reply {
        Reply::Failed(why) => Err(ExecErrorView::Io(why@)),
        Reply::Finished { code, .. } => Ok(code),
    }
}

/// A text or an error, as plain values.
pub open spec fn said_view(said: Result<String, ExecError>) -> Result<Seq<char>, ExecErrorView> {
    match said {
        Ok(text) => Ok(text@),
        Err(error) => Err(error@),
    }
}

/// An exit code or an error, as plain values.
pub open spec fn ended_view(ended: Result<Option<i32>, ExecError>) -> Result<
    Option<i32>,
    ExecErrorView,
> {
    match ended {
        Ok(code) => Ok(code),
        Err(error) => Err(error@),
    }
}

/// Nothing or an error, as plain values.
pub open spec fn done_view(done: Result<(), ExecError>) -> Result<(), ExecErrorView> {
    match done {
        Ok(_) => Ok(()),
        Err(error) => Err(error@),
    }
}

impl Os {
    /// A command whose output is of no interest. `args` holds the program
    /// and its arguments.
    pub fn cmd(args: Vec<String>) -> (inv: Invocation)
        ensures
            inv@ == (InvocationView { mode: Mode::Run, argv: texts(args@) }),
    {
        Invocation { mode: Mode::Run, argv: args }
    }

    /// A command whose output is wanted.
    pub fn cmd_ret(args: Vec<String>) -> (inv: Invocation)
        ensures
            inv@ == (InvocationView { mode: Mode::Capture, argv: texts(args@) }),
    {
        Invocation { mode: Mode::Capture, argv: args }
    }

    /// A command that takes over the terminal until it ends.
    pub fn cmd_spawn(args: Vec<String>) -> (inv: Invocation)
        ensures
            inv@ == (InvocationView { mode: Mode::Spawn, argv: texts(args@) }),
    {
        Invocation { mode: Mode::Spawn, argv: args }
    }
}

impl Reply {
    /// Reads the report of a command whose output was of no interest.
    pub fn ran(&self) -> (done: Result<(), ExecError>)
        ensures
            done_view(done) == ran_spec(*self),
    {
        match self {
            Reply::Failed(why) => Err(ExecError::Io(why.clone())),
            Reply::Finished { .. } => Ok(()),
        }
    }

    /// Reads the report of a command whose output was wanted.
    pub fn captured(&self) -> (said: Result<String, ExecError>)
        ensures
            said_view(said) == captured_spec(*self),
    {
        match self {
            Reply::Failed(why) => Err(ExecError::Io(why.clone())),
            Reply::Finished { stdout, stderr, .. } => {
                if stderr.as_str().is_empty() {
                    Ok(String::from_str(trim(stdout.as_str())))
                } else {
                    Err(ExecError::Reported(String::from_str(trim(stderr.as_str()))))
                }
            },
        }
    }

    /// Reads the report of a command that ran on the terminal.
    pub fn status(&self) -> (ended: Result<Option<i32>, ExecError>)
        ensures
            ended_view(ended) == status_spec(*self),
    {
        match self {
            Reply::Failed(why) => Err(ExecError::Io(why.clone())),
            Reply::Finished { code, .. } => Ok(*code),
        }
    }
}

} // verus!
