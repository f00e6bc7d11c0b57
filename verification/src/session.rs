//! The command dispatcher and the policy behind each verb, as a machine
//! that the embedding program drives: each step says what to print, what
//! to write to the environment and which command to run next, and the
//! next step takes what that command reported.

use vstd::prelude::*;
use vstd::string::*;
use crate::command::{cmd_of, cmd_word, hidden_of, Cmd, HiddenCmd};
use crate::context::{context_word, remember_spec, ContextCache, ExecutionContext, HARB_VAR};
use crate::exec::{
    captured_spec, message_spec, status_spec, texts, ExecError, ExecErrorView, Invocation,
    InvocationView, Mode, Reply,
};
use crate::handshake::{launch, launch_arg, text_of};
use crate::os::Os;
use crate::sentinel::{arm, arm_spec, setup, setup_due, setup_spec, PRE_SETUP, READY};
use crate::text::join2;
use crate::tmux::{is_on_spec, probe_arg, request, Tmux, MANAGED_SERVER};

verus! {

/// The status of a run that did what was asked.
pub const EXIT_OK: i32 = 0;

/// The status of a run that failed on the way.
pub const EXIT_FAILURE: i32 = 1;

/// The status of a run that was asked for nothing it knows.
pub const EXIT_USAGE: i32 = 2;

/// How a run ends.
#[derive(Clone, Copy, Debug, PartialEq, Eq, Structural)]
pub enum Ending {
    /// The run did what was asked.
    Done,
    /// There was no verb, or a word that is none.
    UsageError,
    /// The multiplexer reported an error on the way to the managed session.
    LaunchFailure,
    /// Hidden set-up was asked for while the sentinel did not call for it.
    /// This is no fault of the caller.
    SetupRejected,
    /// A program could not be started at all.
    SubprocessIoError,
}

/// The status with which a run that ends so leaves.
pub open spec fn exit_code(ending: Ending) -> i32 {
    match ending {
        Ending::Done => EXIT_OK,
        Ending::SetupRejected => EXIT_OK,
        Ending::UsageError => EXIT_USAGE,
        Ending::LaunchFailure => EXIT_FAILURE,
        Ending::SubprocessIoError => EXIT_FAILURE,
    }
}

impl Ending {
    /// The status with which a run that ends so leaves.
    pub fn code(&self) -> (code: i32)
        ensures
            code == exit_code(*self),
    {
        match self {
            Ending::Done => EXIT_OK,
            Ending::SetupRejected => EXIT_OK,
            Ending::UsageError => EXIT_USAGE,
            Ending::LaunchFailure => EXIT_FAILURE,
            Ending::SubprocessIoError => EXIT_FAILURE,
        }
    }
}

/// One thing for the embedding program to do.
#[derive(Clone, Debug, PartialEq, Eq)]
pub enum Action {
    /// Print a line for the user.
    Say(String),
    /// Set a variable in the environment of this process.
    SetEnv { key: String, value: String },
    /// Run a command and come back with what it reported.
    Exec(Invocation),
    /// Leave; the ending says with which status.
    Exit(Ending),
}

/// An action as plain values.
pub enum ActionView {
    Say(Seq<char>),
    SetEnv { key: Seq<char>, value: Seq<char> },
    Exec(InvocationView),
    Exit(Ending),
}

impl View for Action {
    type V = ActionView;

    open spec fn view(&self) -> ActionView {
        match *self {
            Action::Say(text) => ActionView::Say(text@),
            Action::SetEnv { key, value } => ActionView::SetEnv { key: key@, value: value@ },
            Action::Exec(inv) => ActionView::Exec(inv@),
            Action::Exit(ending) => ActionView::Exit(ending),
        }
    }
}

/// The actions of a list, as plain values.
pub open spec fn views(actions: Seq<Action>) -> Seq<ActionView> {
    Seq::new(actions.len(), |i: int| actions[i]@)
}

/// Where a run stands.
#[derive(Clone, Copy, Debug, PartialEq, Eq, Structural)]
pub enum Phase {
    /// Nothing was asked yet.
    Idle,
    /// The probe of the managed server is out.
    Probing,
    /// The terminal is attached to the managed server.
    Attaching,
    /// The creation of the managed session is out.
    Launching,
    /// The request to leave a foreign session is out.
    Detaching,
    /// The run is over.
    Finished,
}

/// Whether a run in this phase waits for a command to report.
pub open spec fn waits(phase: Phase) -> bool {
    phase != Phase::Idle && phase != Phase::Finished
}

/// The state of a run as plain values.
pub struct SessionView {
    /// The environment as this process knows it.
    pub env: Map<Seq<char>, Seq<char>>,
    /// The execution context, once it has been asked for.
    pub memory: Option<ExecutionContext>,
    /// The path of this program's own executable.
    pub binary: Seq<char>,
    /// The path of the user's configuration file, where it exists.
    pub config: Option<Seq<char>>,
    /// Whether the working directory is a session directory.
    pub session_dir: bool,
    pub phase: Phase,
}

/// What a step leads to: the state after it, and what is to be done.
pub struct Outcome {
    pub next: SessionView,
    pub actions: Seq<ActionView>,
}

/// A step that ends the run.
pub open spec fn finish(s: SessionView, actions: Seq<ActionView>) -> Outcome {
    Outcome { next: SessionView { phase: Phase::Finished, ..s }, actions }
}

/// A step that ends in a command, for whose report the run then waits.
pub open spec fn wait(s: SessionView, phase: Phase, actions: Seq<ActionView>) -> Outcome {
    Outcome { next: SessionView { phase, ..s }, actions }
}

/// A step that ends the run with a complaint.
pub open spec fn fail(s: SessionView, ending: Ending, why: Seq<char>) -> Outcome {
    finish(s, seq![ActionView::Say(why), ActionView::Exit(ending)])
}

/// The ending that an error of the executor leads to.
pub open spec fn ending_of(error: ExecErrorView) -> Ending {
    match error {
        ExecErrorView::Io(_) => Ending::SubprocessIoError,
        ExecErrorView::Reported(_) => Ending::LaunchFailure,
    }
}

/// A step that ends the run on an error of the executor, whose message is
/// passed on as it is.
pub open spec fn broken(s: SessionView, error: ExecErrorView) -> Outcome {
    fail(s, ending_of(error), message_spec(error))
}

/// The usage text. The hidden verb has no place in it.
pub open spec fn help_text() -> Seq<char> {
    "Help!"@
}

/// How a truth value is printed.
pub open spec fn bool_word(b: bool) -> Seq<char> {
    if b {
        "true"@
    } else {
        "false"@
    }
}

/// The complaint about a verb that is none.
pub open spec fn unknown_text(verb: Seq<char>) -> Seq<char> {
    "["@ + verb + "] is not a recognized command!\n  Help:"@
}

/// `help`: the usage text.
pub open spec fn help_spec(s: SessionView) -> Outcome {
    finish(s, seq![ActionView::Say(help_text()), ActionView::Exit(Ending::Done)])
}

/// `start`: reserved.
pub open spec fn start_spec(s: SessionView) -> Outcome {
    finish(s, seq![ActionView::Say("Start!"@), ActionView::Exit(Ending::Done)])
}

/// `test`: a report of where this process runs.
pub open spec fn test_spec(s: SessionView) -> Outcome {
    let (context, memory) = remember_spec(s.memory, s.env);
    finish(
        SessionView { memory, ..s },
        seq![
            ActionView::Say("in harb dir: "@ + bool_word(s.session_dir)),
            ActionView::Say("context: "@ + context_word(context)),
            ActionView::Exit(Ending::Done),
        ],
    )
}

/// A verb that is none: the complaint, the usage text, and a status that
/// tells of the failure.
pub open spec fn fallback_spec(s: SessionView, verb: Seq<char>) -> Outcome {
    finish(
        s,
        seq![
            ActionView::Say(unknown_text(verb)),
            ActionView::Say(help_text()),
            ActionView::Exit(Ending::UsageError),
        ],
    )
}

/// No verb at all.
pub open spec fn usage_spec(s: SessionView) -> Outcome {
    finish(
        s,
        seq![
            ActionView::Say("No command given!\n  Help:"@),
            ActionView::Say(help_text()),
            ActionView::Exit(Ending::UsageError),
        ],
    )
}

/// The set-up step inside the new session. Where the sentinel does not
/// call for it, nothing is set up, and the caller is told so without being
/// failed.
pub open spec fn setup_step_spec(s: SessionView) -> Outcome {
    if setup_due(s.env) {
        finish(
            SessionView { env: setup_spec(s.env), ..s },
            seq![
                ActionView::Say("setup session..."@),
                ActionView::SetEnv { key: HARB_VAR@, value: READY@ },
                ActionView::Exit(Ending::Done),
            ],
        )
    } else {
        finish(
            s,
            seq![ActionView::Say("Setup is not due!"@), ActionView::Exit(Ending::SetupRejected)],
        )
    }
}

/// The hidden verb: the action named behind it, if it names one.
pub open spec fn hidden_spec(s: SessionView, argv: Seq<Seq<char>>) -> Outcome {
    if argv.len() >= 2 && hidden_of(argv[1]) == Some(HiddenCmd::Setup) {
        setup_step_spec(s)
    } else {
        finish(s, seq![ActionView::Say("No hidden func found!"@), ActionView::Exit(Ending::Done)])
    }
}

/// The request that leaves a foreign session and has the terminal call
/// this program's `harbour` again, outside of it.
pub open spec fn detach_arg(binary: Seq<char>) -> Seq<char> {
    "detach -E \""@ + (binary + " "@ + cmd_word(Cmd::Harbour)) + "\""@
}

/// `harbour`: inside the managed server there is nothing to do; inside a
/// foreign session the way leads out of it first; in a bare shell the
/// managed server is asked whether it is alive.
pub open spec fn harbour_spec(s: SessionView) -> Outcome {
    let (context, memory) = remember_spec(s.memory, s.env);
    let s = SessionView { memory, ..s };
    match context {
        ExecutionContext::Nested => finish(
            s,
            seq![ActionView::Say("Already in harbomux!"@), ActionView::Exit(Ending::Done)],
        ),
        ExecutionContext::PlainMultiplexer => wait(
            s,
            Phase::Detaching,
            seq![
                ActionView::Say("in tmux"@),
                ActionView::Exec(request(Mode::Capture, None, detach_arg(s.binary))),
            ],
        ),
        ExecutionContext::Bare => wait(
            s,
            Phase::Probing,
            seq![ActionView::Exec(request(Mode::Capture, Some(MANAGED_SERVER@), probe_arg()))],
        ),
    }
}

/// The first step of a run: the verb decides.
pub open spec fn dispatch_spec(s: SessionView, argv: Seq<Seq<char>>) -> Outcome {
    if argv.len() == 0 {
        usage_spec(s)
    } else {
        match cmd_of(argv[0]) {
            Some(Cmd::Harbour) => harbour_spec(s),
            Some(Cmd::Help) => help_spec(s),
            Some(Cmd::Start) => start_spec(s),
            Some(Cmd::Test) => test_spec(s),
            Some(Cmd::Hidden) => hidden_spec(s, argv),
            None => fallback_spec(s, argv[0]),
        }
    }
}

/// The command that attaches the terminal to the managed server.
pub open spec fn attach_request() -> InvocationView {
    request(Mode::Spawn, Some(MANAGED_SERVER@), "attach"@)
}

/// The command that creates the managed session.
pub open spec fn launch_request(s: SessionView) -> InvocationView {
    request(Mode::Spawn, Some(MANAGED_SERVER@), launch_arg(s.binary, s.config))
}

/// The launch: the sentinel is armed, then the session is created. The
/// run does not wait for set-up inside the session.
pub open spec fn launch_spec(s: SessionView) -> Outcome {
    wait(
        SessionView { env: arm_spec(s.env), ..s },
        Phase::Launching,
        seq![
            ActionView::Say("launching..."@),
            ActionView::SetEnv { key: HARB_VAR@, value: PRE_SETUP@ },
            ActionView::Exec(launch_request(s)),
        ],
    )
}

/// After the probe: a live server is attached to, a missing one is
/// launched. Only a probe that could not be started is a failure.
pub open spec fn probed_spec(s: SessionView, reply: Reply) -> Outcome {
    match captured_spec(reply) {
        Err(ExecErrorView::Io(why)) => broken(s, ExecErrorView::Io(why)),
        _ => if is_on_spec(reply) {
            wait(s, Phase::Attaching, seq![ActionView::Exec(attach_request())])
        } else {
            launch_spec(s)
        },
    }
}

/// After a command on the terminal has ended: success is an exit code of
/// zero. `told` is said on success, where there is something to say, and
/// `complaint` on failure.
pub open spec fn ended_spec(
    s: SessionView,
    reply: Reply,
    told: Option<Seq<char>>,
    complaint: Seq<char>,
) -> Outcome {
    match status_spec(reply) {
        Err(error) => broken(s, error),
        Ok(code) => if code == Some(0i32) {
            match told {
                Some(text) => finish(
                    s,
                    seq![ActionView::Say(text), ActionView::Exit(Ending::Done)],
                ),
                None => finish(s, seq![ActionView::Exit(Ending::Done)]),
            }
        } else {
            fail(s, Ending::LaunchFailure, complaint)
        },
    }
}

/// After the request to leave a foreign session: what the multiplexer
/// wrote to its error stream is its complaint.
pub open spec fn detached_spec(s: SessionView, reply: Reply) -> Outcome {
    match captured_spec(reply) {
        Ok(_) => finish(s, seq![ActionView::Exit(Ending::Done)]),
        Err(error) => broken(s, error),
    }
}

/// A later step of a run: the phase says which command has reported.
pub open spec fn resume_spec(s: SessionView, reply: Reply) -> Outcome {
    match s.phase {
        Phase::Probing => probed_spec(s, reply),
        Phase::Attaching => ended_spec(s, reply, None, "Could not attach to harbomux!"@),
        Phase::Launching => ended_spec(
            s,
            reply,
            Some("not in tmux"@),
            "Could not launch harbomux!"@,
        ),
        Phase::Detaching => detached_spec(s, reply),
        Phase::Idle | Phase::Finished => fail(s, Ending::UsageError, "No command was waiting!"@),
    }
}

/// What is left of a run once its first step is done: the commands report
/// one after the other, for as long as the run waits and reports are left.
pub open spec fn feed_spec(s: SessionView, replies: Seq<Reply>) -> Outcome
    decreases replies.len(),
{
    if replies.len() == 0 || !waits(s.phase) {
        Outcome { next: s, actions: Seq::<ActionView>::empty() }
    } else {
        let step = resume_spec(s, replies[0]);
        let rest = feed_spec(step.next, replies.drop_first());
        Outcome { next: rest.next, actions: step.actions + rest.actions }
    }
}

/// A whole run: the first step, then what the reports lead to.
pub open spec fn run_spec(s: SessionView, argv: Seq<Seq<char>>, replies: Seq<Reply>) -> Outcome {
    let step = dispatch_spec(s, argv);
    let rest = feed_spec(step.next, replies);
    Outcome { next: rest.next, actions: step.actions + rest.actions }
}

/// One run of this program: what it knows of its surroundings, and how far
/// it has come.
pub struct Session {
    os: Os,
    cache: ContextCache,
    binary: String,
    config: Option<String>,
    session_dir: bool,
    phase: Phase,
}

impl View for Session {
    type V = SessionView;

    closed spec fn view(&self) -> SessionView {
        SessionView {
            env: self.os@,
            memory: self.cache@,
            binary: self.binary@,
            config: text_of(self.config),
            session_dir: self.session_dir,
            phase: self.phase,
        }
    }
}

/// A line for the user.
fn say(text: &str) -> (action: Action)
    ensures
        action@ == ActionView::Say(text@),
{
    Action::Say(String::from_str(text))
}

/// A write to the environment.
fn set_env(key: &str, value: &str) -> (action: Action)
    ensures
        action@ == (ActionView::SetEnv { key: key@, value: value@ }),
{
    Action::SetEnv { key: String::from_str(key), value: String::from_str(value) }
}

impl Session {
    /// A run that has not begun. `os` is the environment at the start,
    /// `binary` the path of this program's executable, `config` the path
    /// of the user's configuration file where that file exists, and
    /// `session_dir` whether the working directory is a session directory.
    pub fn new(os: Os, binary: String, config: Option<String>, session_dir: bool) -> (session:
        Session)
        ensures
            session@ == (SessionView {
                env: os@,
                memory: None,
                binary: binary@,
                config: text_of(config),
                session_dir,
                phase: Phase::Idle,
            }),
    {
        Session {
            os,
            cache: ContextCache::new(),
            binary,
            config,
            session_dir,
            phase: Phase::Idle,
        }
    }

    /// Where the run stands.
    pub fn phase(&self) -> (phase: Phase)
        ensures
            phase == self@.phase,
    {
        self.phase
    }

    /// Whether the run waits for a command to report.
    pub fn waiting(&self) -> (waiting: bool)
        ensures
            waiting == waits(self@.phase),
    {
        match self.phase {
            Phase::Idle | Phase::Finished => false,
            _ => true,
        }
    }

    /// The environment as the run knows it.
    pub fn os(&self) -> (os: &Os)
        ensures
            os@ == self@.env,
    {
        &self.os
    }

    /// The execution context, once the run has asked for it.
    pub fn context(&self) -> (context: Option<ExecutionContext>)
        ensures
            context == self@.memory,
    {
        self.cache.peek()
    }

    /// Ends the run with a complaint.
    fn fail(&mut self, ending: Ending, why: &str) -> (actions: Vec<Action>)
        ensures
            (Outcome { next: final(self)@, actions: views(actions@) }) == fail(
                old(self)@,
                ending,
                why@,
            ),
    {
        let mut actions: Vec<Action> = Vec::new();
        actions.push(say(why));
        actions.push(Action::Exit(ending));
        self.phase = Phase::Finished;
        assert(views(actions@) =~= fail(old(self)@, ending, why@).actions);
        actions
    }

    /// Ends the run on an error of the executor.
    fn broken(&mut self, error: &ExecError) -> (actions: Vec<Action>)
        ensures
            (Outcome { next: final(self)@, actions: views(actions@) }) == broken(
                old(self)@,
                error@,
            ),
    {
        let ending = match error {
            ExecError::Io(_) => Ending::SubprocessIoError,
            ExecError::Reported(_) => Ending::LaunchFailure,
        };
        self.fail(ending, error.message())
    }

    /// Ends the run in good order, with a last word where there is one.
    fn succeed(&mut self, told: Option<&str>) -> (actions: Vec<Action>)
        ensures
            final(self)@ == (SessionView { phase: Phase::Finished, ..old(self)@ }),
            views(actions@) == match told {
                Some(text) => seq![ActionView::Say(text@), ActionView::Exit(Ending::Done)],
                None => seq![ActionView::Exit(Ending::Done)],
            },
    {
        let mut actions: Vec<Action> = Vec::new();
        match told {
            Some(text) => {
                actions.push(say(text));
            },
            None => {},
        }
        actions.push(Action::Exit(Ending::Done));
        self.phase = Phase::Finished;
        assert(views(actions@) =~= match told {
            Some(text) => seq![ActionView::Say(text@), ActionView::Exit(Ending::Done)],
            None => seq![ActionView::Exit(Ending::Done)],
        });
        actions
    }

    /// `help`: prints the usage text.
    pub fn help(&mut self) -> (actions: Vec<Action>)
        ensures
            (Outcome { next: final(self)@, actions: views(actions@) }) == help_spec(old(self)@),
    {
        self.succeed(Some("Help!"))
    }

    /// `start`: reserved.
    pub fn start(&mut self) -> (actions: Vec<Action>)
        ensures
            (Outcome { next: final(self)@, actions: views(actions@) }) == start_spec(old(self)@),
    {
        self.succeed(Some("Start!"))
    }

    /// `test`: reports where this process runs.
    pub fn test(&mut self) -> (actions: Vec<Action>)
        ensures
            (Outcome { next: final(self)@, actions: views(actions@) }) == test_spec(old(self)@),
    {
        let context = self.cache.classify(&self.os);
        let flag = if self.session_dir {
            "true"
        } else {
            "false"
        };
        let mut actions: Vec<Action> = Vec::new();
        actions.push(Action::Say(join2("in harb dir: ", flag)));
        actions.push(Action::Say(join2("context: ", context.name())));
        actions.push(Action::Exit(Ending::Done));
        self.phase = Phase::Finished;
        assert(views(actions@) =~= test_spec(old(self)@).actions);
        actions
    }

    /// A verb that is none: complains of it by name, prints the usage
    /// text, and fails.
    pub fn fallback(&mut self, verb: &str) -> (actions: Vec<Action>)
        ensures
            (Outcome { next: final(self)@, actions: views(actions@) }) == fallback_spec(
                old(self)@,
                verb@,
            ),
    {
        let mut line = String::from_str("[");
        line.append(verb);
        line.append("] is not a recognized command!\n  Help:");
        let mut actions: Vec<Action> = Vec::new();
        actions.push(Action::Say(line));
        actions.push(say("Help!"));
        actions.push(Action::Exit(Ending::UsageError));
        self.phase = Phase::Finished;
        assert(views(actions@) =~= fallback_spec(old(self)@, verb@).actions);
        actions
    }

    /// No verb at all: a usage error.
    fn usage(&mut self) -> (actions: Vec<Action>)
        ensures
            (Outcome { next: final(self)@, actions: views(actions@) }) == usage_spec(old(self)@),
    {
        let mut actions: Vec<Action> = Vec::new();
        actions.push(say("No command given!\n  Help:"));
        actions.push(say("Help!"));
        actions.push(Action::Exit(Ending::UsageError));
        self.phase = Phase::Finished;
        assert(views(actions@) =~= usage_spec(old(self)@).actions);
        actions
    }

    /// The set-up step inside the new session: runs where the sentinel
    /// calls for it, and then advances the sentinel; otherwise it only
    /// says that set-up is not due.
    pub fn setup(&mut self) -> (actions: Vec<Action>)
        ensures
            (Outcome { next: final(self)@, actions: views(actions@) }) == setup_step_spec(
                old(self)@,
            ),
    {
        let mut actions: Vec<Action> = Vec::new();
        match setup(&mut self.os) {
            Ok(_) => {
                actions.push(say("setup session..."));
                actions.push(set_env(HARB_VAR, READY));
                actions.push(Action::Exit(Ending::Done));
            },
            Err(_) => {
                actions.push(say("Setup is not due!"));
                actions.push(Action::Exit(Ending::SetupRejected));
            },
        }
        self.phase = Phase::Finished;
        assert(views(actions@) =~= setup_step_spec(old(self)@).actions);
        actions
    }

    /// The hidden verb: runs the action that `argv` names behind it.
    pub fn hidden_funcs(&mut self, argv: &Vec<String>) -> (actions: Vec<Action>)
        ensures
            (Outcome { next: final(self)@, actions: views(actions@) }) == hidden_spec(
                old(self)@,
                texts(argv@),
            ),
    {
        if argv.len() >= 2 {
            match HiddenCmd::new(argv[1].as_str()) {
                Some(HiddenCmd::Setup) => {
                    return self.setup();
                },
                None => {},
            }
        }
        self.succeed(Some("No hidden func found!"))
    }

    /// Arms the sentinel and asks for the managed session to be created.
    pub fn launch(&mut self) -> (actions: Vec<Action>)
        ensures
            (Outcome { next: final(self)@, actions: views(actions@) }) == launch_spec(old(self)@),
    {
        arm(&mut self.os);
        let mut actions: Vec<Action> = Vec::new();
        actions.push(say("launching..."));
        actions.push(set_env(HARB_VAR, PRE_SETUP));
        actions.push(Action::Exec(launch(&Tmux::managed(), self.binary.as_str(), &self.config)));
        self.phase = Phase::Launching;
        assert(views(actions@) =~= launch_spec(old(self)@).actions);
        actions
    }

    /// `harbour`: brings the user to the managed server from wherever this
    /// process runs.
    pub fn harbour(&mut self) -> (actions: Vec<Action>)
        ensures
            (Outcome { next: final(self)@, actions: views(actions@) }) == harbour_spec(old(self)@),
    {
        let context = self.cache.classify(&self.os);
        match context {
            ExecutionContext::Nested => self.succeed(Some("Already in harbomux!")),
            ExecutionContext::PlainMultiplexer => {
                let mut again = String::from_str(self.binary.as_str());
                again.append(" ");
                again.append(Cmd::Harbour.name());
                let mut actions: Vec<Action> = Vec::new();
                actions.push(say("in tmux"));
                actions.push(Action::Exec(Tmux::new().detach_cmd(again.as_str())));
                self.phase = Phase::Detaching;
                assert(views(actions@) =~= harbour_spec(old(self)@).actions);
                actions
            },
            ExecutionContext::Bare => {
                let mut actions: Vec<Action> = Vec::new();
                actions.push(Action::Exec(Tmux::managed().probe()));
                self.phase = Phase::Probing;
                assert(views(actions@) =~= harbour_spec(old(self)@).actions);
                actions
            },
        }
    }

    /// The first step of a run. `argv` holds the verb and what follows it,
    /// without the program's own name.
    pub fn dispatch(&mut self, argv: &Vec<String>) -> (actions: Vec<Action>)
        ensures
            (Outcome { next: final(self)@, actions: views(actions@) }) == dispatch_spec(
                old(self)@,
                texts(argv@),
            ),
    {
        if argv.len() == 0 {
            return self.usage();
        }
        let verb = argv[0].as_str();
        match Cmd::new(verb) {
            Some(Cmd::Harbour) => self.harbour(),
            Some(Cmd::Help) => self.help(),
            Some(Cmd::Start) => self.start(),
            Some(Cmd::Test) => self.test(),
            Some(Cmd::Hidden) => self.hidden_funcs(argv),
            None => self.fallback(verb),
        }
    }

    /// What follows the end of a command on the terminal.
    fn ended(&mut self, reply: &Reply, told: Option<&str>, complaint: &str) -> (actions: Vec<
        Action,
    >)
        ensures
            (Outcome { next: final(self)@, actions: views(actions@) }) == ended_spec(
                old(self)@,
                *reply,
                match told {
                    Some(text) => Some(text@),
                    None => None,
                },
                complaint@,
            ),
    {
        match reply.status() {
            Err(error) => self.broken(&error),
            Ok(code) => match code {
                Some(0) => self.succeed(told),
                _ => self.fail(Ending::LaunchFailure, complaint),
            },
        }
    }

    /// A later step of a run: `reply` is what the command of the step
    /// before has reported.
    pub fn resume(&mut self, reply: &Reply) -> (actions: Vec<Action>)
        ensures
            (Outcome { next: final(self)@, actions: views(actions@) }) == resume_spec(
                old(self)@,
                *reply,
            ),
    {
        match self.phase {
            Phase::Probing => match reply.captured() {
                Err(ExecError::Io(why)) => self.broken(&ExecError::Io(why)),
                _ => {
                    let managed = Tmux::managed();
                    if managed.is_on(reply) {
                        let mut actions: Vec<Action> = Vec::new();
                        actions.push(Action::Exec(managed.attach()));
                        self.phase = Phase::Attaching;
                        assert(views(actions@) =~= resume_spec(old(self)@, *reply).actions);
                        actions
                    } else {
                        self.launch()
                    }
                },
            },
            Phase::Attaching => self.ended(reply, None, "Could not attach to harbomux!"),
            Phase::Launching => self.ended(
                reply,
                Some("not in tmux"),
                "Could not launch harbomux!",
            ),
            Phase::Detaching => match reply.captured() {
                Ok(_) => self.succeed(None),
                Err(error) => self.broken(&error),
            },
            Phase::Idle | Phase::Finished => self.fail(
                Ending::UsageError,
                "No command was waiting!",
            ),
        }
    }

    /// A whole run against reports that are known beforehand: the first
    /// step for `argv`, then one step for each report, in order, for as
    /// long as the run waits for one. The result holds the actions of all
    /// steps, in order.
    pub fn replay(&mut self, argv: &Vec<String>, replies: &Vec<Reply>) -> (actions: Vec<Action>)
        ensures
            (Outcome { next: final(self)@, actions: views(actions@) }) == run_spec(
                old(self)@,
                texts(argv@),
                replies@,
            ),
    {
        let mut actions = self.dispatch(argv);
        let ghost whole = run_spec(old(self)@, texts(argv@), replies@);
        let mut at: usize = 0;
        assert(replies@.subrange(0, replies@.len() as int) =~= replies@);
        while at < replies.len() && self.waiting()
            invariant
                at <= replies@.len(),
                whole.next == feed_spec(
                    self@,
                    replies@.subrange(at as int, replies@.len() as int),
                ).next,
                whole.actions == views(actions@) + feed_spec(
                    self@,
                    replies@.subrange(at as int, replies@.len() as int),
                ).actions,
            decreases replies@.len() - at,
        {
            let ghost before = self@;
            let ghost said = views(actions@);
            let ghost left = replies@.subrange(at as int, replies@.len() as int);
            let mut more = self.resume(&replies[at]);
            let ghost step = views(more@);
            assert(left[0] == replies@[at as int]);
            assert(left.drop_first() =~= replies@.subrange(at + 1, replies@.len() as int));
            actions.append(&mut more);
            assert(views(actions@) =~= said + step);
            assert(said + (step + feed_spec(self@, left.drop_first()).actions) =~= (said + step)
                + feed_spec(self@, left.drop_first()).actions);
            at += 1;
        }
        assert(views(actions@) + Seq::<ActionView>::empty() =~= views(actions@));
        actions
    }
}

} // verus!
