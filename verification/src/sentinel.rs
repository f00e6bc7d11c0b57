//! The bootstrap sentinel: the one variable through which the launcher and
//! the set-up step inside the new session tell each other how far the
//! handshake has come.

use vstd::prelude::*;
use crate::context::HARB_VAR;
use crate::os::Os;
use crate::text::same_text;

verus! {

/// The value that the launcher writes before it creates the session.
pub const PRE_SETUP: &'static str = "pre-setup";

/// The value that the set-up step writes once it has run.
pub const READY: &'static str = "1";

/// How far the handshake has come, as the sentinel tells it.
#[derive(Clone, Copy, Debug, PartialEq, Eq, Structural)]
pub enum BootstrapSentinel {
    /// The variable is not set: no launch is under way.
    Absent,
    /// A launch was started and set-up is due.
    PreSetup,
    /// Set-up has run.
    Ready,
    /// The variable holds a value that the handshake never writes.
    Unknown,
}

/// The state that a value of the variable stands for.
pub open spec fn sentinel_of(value: Option<Seq<char>>) -> BootstrapSentinel {
    match value {
        None => BootstrapSentinel::Absent,
        Some(text) => if text == PRE_SETUP@ {
            BootstrapSentinel::PreSetup
        } else if text == READY@ {
            BootstrapSentinel::Ready
        } else {
            BootstrapSentinel::Unknown
        },
    }
}

/// The state of the sentinel in an environment.
pub open spec fn sentinel_in(env: Map<Seq<char>, Seq<char>>) -> BootstrapSentinel {
    sentinel_of(
        if env.contains_key(HARB_VAR@) {
            Some(env[HARB_VAR@])
        } else {
            None
        },
    )
}

/// The environment after the launcher has armed the sentinel.
pub open spec fn arm_spec(env: Map<Seq<char>, Seq<char>>) -> Map<Seq<char>, Seq<char>> {
    env.insert(HARB_VAR@, PRE_SETUP@)
}

/// Whether set-up may run in an environment: only when the sentinel says
/// that it is due.
pub open spec fn setup_due(env: Map<Seq<char>, Seq<char>>) -> bool {
    sentinel_in(env) == BootstrapSentinel::PreSetup
}

/// The environment after the set-up step: the sentinel is advanced where
/// set-up was due, and nothing changes where it was not.
pub open spec fn setup_spec(env: Map<Seq<char>, Seq<char>>) -> Map<Seq<char>, Seq<char>> {
    if setup_due(env) {
        env.insert(HARB_VAR@, READY@)
    } else {
        env
    }
}

/// Set-up was asked for while the sentinel did not call for it.
#[derive(Clone, Copy, Debug, PartialEq, Eq, Structural)]
pub struct SetupRejected {
    /// What the sentinel said instead.
    pub observed: BootstrapSentinel,
}

impl BootstrapSentinel {
    /// Reads a value of the variable.
    pub fn parse(value: &Option<String>) -> (state: BootstrapSentinel)
        ensures
            state == sentinel_of(
                match *value {
                    Some(text) => Some(text@),
                    None => None,
                },
            ),
    {
        match value {
            None => BootstrapSentinel::Absent,
            Some(text) => {
                if same_text(text.as_str(), PRE_SETUP) {
                    BootstrapSentinel::PreSetup
                } else if same_text(text.as_str(), READY) {
                    BootstrapSentinel::Ready
                } else {
                    BootstrapSentinel::Unknown
                }
            },
        }
    }

    /// Reads the sentinel of an environment.
    pub fn observe(os: &Os) -> (state: BootstrapSentinel)
        ensures
            state == sentinel_in(os@),
    {
        let value = os.get_env(HARB_VAR);
        BootstrapSentinel::parse(&value)
    }
}

/// Arms the sentinel: the session created next inherits the notice that
/// set-up is due.
pub fn arm(os: &mut Os)
    ensures
        final(os)@ == arm_spec(old(os)@),
{
    os.set_env(HARB_VAR, PRE_SETUP);
}

/// The set-up step. It runs only where the sentinel says that set-up is
/// due, and then advances the sentinel; on any other value it changes
/// nothing and says what it saw.
pub fn setup(os: &mut Os) -> (done: Result<(), SetupRejected>)
    ensures
        done is Ok <==> setup_due(old(os)@),
        done matches Err(rejected) ==> rejected.observed == sentinel_in(old(os)@),
        final(os)@ == setup_spec(old(os)@),
{
    let observed = BootstrapSentinel::observe(os);
    match observed {
        BootstrapSentinel::PreSetup => {
            os.set_env(HARB_VAR, READY);
            Ok(())
        },
        _ => Err(SetupRejected { observed }),
    }
}

/// The two values that the handshake writes differ, so each state of the
/// sentinel is told apart from the others.
pub proof fn lemma_values_differ()
    ensures
        PRE_SETUP@ != READY@,
        sentinel_of(Some(PRE_SETUP@)) == BootstrapSentinel::PreSetup,
        sentinel_of(Some(READY@)) == BootstrapSentinel::Ready,
{
    reveal_strlit("pre-setup");
    reveal_strlit("1");
    assert(PRE_SETUP@.len() != READY@.len());
}

/// Set-up runs exactly once: where it is due it advances the sentinel to
/// ready, and from then on it changes nothing.
pub proof fn lemma_setup_once(env: Map<Seq<char>, Seq<char>>)
    requires
        setup_due(env),
    ensures
        sentinel_in(setup_spec(env)) == BootstrapSentinel::Ready,
        !setup_due(setup_spec(env)),
        setup_spec(setup_spec(env)) == setup_spec(env),
{
    lemma_values_differ();
}

/// Set-up changes nothing unless it is due; in particular not where the
/// sentinel is absent.
pub proof fn lemma_setup_guarded(env: Map<Seq<char>, Seq<char>>)
    ensures
        !setup_due(env) ==> setup_spec(env) == env,
        !env.contains_key(HARB_VAR@) ==> !setup_due(env) && sentinel_in(env)
            == BootstrapSentinel::Absent,
{
}

/// Set-up is idempotent on every environment.
pub proof fn lemma_setup_idempotent(env: Map<Seq<char>, Seq<char>>)
    ensures
        setup_spec(setup_spec(env)) == setup_spec(env),
{
    if setup_due(env) {
        lemma_setup_once(env);
    }
}

/// Arming makes set-up due, whatever the sentinel said before, and touches
/// no other variable.
pub proof fn lemma_arm_then_setup(env: Map<Seq<char>, Seq<char>>)
    ensures
        setup_due(arm_spec(env)),
        sentinel_in(setup_spec(arm_spec(env))) == BootstrapSentinel::Ready,
        forall|k: Seq<char>|
            k != HARB_VAR@ ==> arm_spec(env).contains_key(k) == env.contains_key(k),
{
    lemma_values_differ();
}

} // verus!
