//! What holds of every run of the machine, whatever the commands report.

use vstd::prelude::*;
use crate::command::{cmd_of, cmd_word, hidden_word, lemma_cmd_round_trip, Cmd, HiddenCmd};
use crate::context::{classify_spec, remember_spec, ExecutionContext, HARB_VAR, TMUX_VAR};
use crate::exec::{InvocationView, Mode, Reply};
use crate::handshake::{launch_arg, startup_spec};
use crate::sentinel::{
    arm_spec, lemma_values_differ, sentinel_in, setup_due, BootstrapSentinel, PRE_SETUP, READY,
};
use crate::session::{
    attach_request, detach_arg, dispatch_spec, exit_code, feed_spec, harbour_spec, help_text,
    launch_request, launch_spec, resume_spec, run_spec, setup_step_spec, unknown_text, waits,
    ActionView, Ending, Outcome, Phase, SessionView,
};
use crate::tmux::{
    command_line, is_on_spec, prefix_spec, probe_arg, request, MANAGED_SERVER,
};

verus! {

/// How often a list of actions asks for the command `wanted` to be run.
pub open spec fn count(actions: Seq<ActionView>, wanted: InvocationView) -> nat
    decreases actions.len(),
{
    if actions.len() == 0 {
        0
    } else {
        count(actions.drop_last(), wanted) + if actions.last() == ActionView::Exec(wanted) {
            1nat
        } else {
            0nat
        }
    }
}

/// The environment after the writes that a list of actions asks for.
pub open spec fn written(env: Map<Seq<char>, Seq<char>>, actions: Seq<ActionView>) -> Map<
    Seq<char>,
    Seq<char>,
>
    decreases actions.len(),
{
    if actions.len() == 0 {
        env
    } else {
        let before = written(env, actions.drop_last());
        match actions.last() {
            ActionView::SetEnv { key, value } => before.insert(key, value),
            _ => before,
        }
    }
}

/// Whether a list of actions is one step: words and writes, and then, as
/// its last action and nowhere else, a command to run or the exit.
pub open spec fn is_step(actions: Seq<ActionView>, phase: Phase) -> bool {
    &&& actions.len() > 0
    &&& forall|i: int|
        0 <= i < actions.len() - 1 ==> (#[trigger] actions[i] is Say || actions[i] is SetEnv)
    &&& waits(phase) ==> actions.last() is Exec
    &&& !waits(phase) ==> actions.last() is Exit
}

/// The context in which a run takes itself to be.
pub open spec fn context_of(s: SessionView) -> ExecutionContext {
    remember_spec(s.memory, s.env).0
}

/// Counting goes through lists that are put together.
pub proof fn lemma_count_add(a: Seq<ActionView>, b: Seq<ActionView>, wanted: InvocationView)
    ensures
        count(a + b, wanted) == count(a, wanted) + count(b, wanted),
    decreases b.len(),
{
    if b.len() == 0 {
        assert(a + b =~= a);
    } else {
        lemma_count_add(a, b.drop_last(), wanted);
        assert((a + b).drop_last() =~= a + b.drop_last());
        assert((a + b).last() == b.last());
    }
}

/// A list that never asks for `wanted` asks for it no times.
pub proof fn lemma_count_none(actions: Seq<ActionView>, wanted: InvocationView)
    requires
        forall|i: int| 0 <= i < actions.len() ==> actions[i] != ActionView::Exec(wanted),
    ensures
        count(actions, wanted) == 0,
    decreases actions.len(),
{
    if actions.len() > 0 {
        lemma_count_none(actions.drop_last(), wanted);
    }
}

/// The three commands of `harbour` against the managed server are told
/// apart: the probe, the attach and the creation of the session.
pub proof fn lemma_requests_differ(s: SessionView)
    ensures
        launch_request(s) != attach_request(),
        request(Mode::Capture, Some(MANAGED_SERVER@), probe_arg()) != launch_request(s),
        request(Mode::Capture, Some(MANAGED_SERVER@), probe_arg()) != attach_request(),
{
    reveal_strlit("new-session ");
    reveal_strlit("attach");
    let label = Some(MANAGED_SERVER@);
    let head = "tmux "@ + prefix_spec(label);
    let create = launch_arg(s.binary, s.config);
    assert(create[0] == 'n');
    assert("attach"@[0] == 'a');
    assert(command_line(label, create)[head.len() as int] == 'n');
    assert(command_line(label, "attach"@)[head.len() as int] == 'a');
    assert(launch_request(s).argv[2] == command_line(label, create));
    assert(attach_request().argv[2] == command_line(label, "attach"@));
}

/// The first step of every run is one step.
pub proof fn lemma_dispatch_is_step(s: SessionView, argv: Seq<Seq<char>>)
    ensures
        is_step(dispatch_spec(s, argv).actions, dispatch_spec(s, argv).next.phase),
{
}

/// Every later step of a run is one step.
pub proof fn lemma_resume_is_step(s: SessionView, reply: Reply)
    ensures
        is_step(resume_spec(s, reply).actions, resume_spec(s, reply).next.phase),
{
}

/// The environment that a run knows after its first step is the one it
/// knew before, with the writes that the step asked for; nothing else of
/// its surroundings changes.
pub proof fn lemma_dispatch_writes(s: SessionView, argv: Seq<Seq<char>>)
    ensures
        dispatch_spec(s, argv).next.env == written(s.env, dispatch_spec(s, argv).actions),
        dispatch_spec(s, argv).next.binary == s.binary,
        dispatch_spec(s, argv).next.config == s.config,
        dispatch_spec(s, argv).next.session_dir == s.session_dir,
{
    reveal_with_fuel(written, 4);
}

/// The same holds of every later step.
pub proof fn lemma_resume_writes(s: SessionView, reply: Reply)
    ensures
        resume_spec(s, reply).next.env == written(s.env, resume_spec(s, reply).actions),
        resume_spec(s, reply).next.binary == s.binary,
        resume_spec(s, reply).next.config == s.config,
        resume_spec(s, reply).next.session_dir == s.session_dir,
        resume_spec(s, reply).next.memory == s.memory,
{
    reveal_with_fuel(written, 4);
}

/// A run that does not wait takes no further step.
pub proof fn lemma_feed_at_rest(s: SessionView, replies: Seq<Reply>)
    requires
        !waits(s.phase),
    ensures
        feed_spec(s, replies) == (Outcome { next: s, actions: Seq::<ActionView>::empty() }),
{
}

/// Once a run waits for the end of an attach, a launch or a detach, it
/// asks for no further command: the next report ends it.
pub proof fn lemma_feed_last_wait(s: SessionView, replies: Seq<Reply>, wanted: InvocationView)
    requires
        s.phase == Phase::Attaching || s.phase == Phase::Launching || s.phase == Phase::Detaching,
    ensures
        count(feed_spec(s, replies).actions, wanted) == 0,
        replies.len() > 0 ==> feed_spec(s, replies).next.phase == Phase::Finished,
        replies.len() == 0 ==> feed_spec(s, replies).next == s,
        feed_spec(s, replies).next.env == s.env,
        feed_spec(s, replies).next.memory == s.memory,
{
    if replies.len() > 0 {
        let step = resume_spec(s, replies[0]);
        lemma_feed_at_rest(step.next, replies.drop_first());
        assert(step.actions + Seq::<ActionView>::empty() =~= step.actions);
        lemma_count_none(step.actions, wanted);
    }
}

/// In a bare shell, with the managed server not alive, `harbour` asks for
/// the session to be created exactly once and for no attach at all,
/// whatever is reported afterwards. The run arms the sentinel on the way.
pub proof fn lemma_bare_absent_creates_once(s: SessionView, replies: Seq<Reply>)
    requires
        context_of(s) == ExecutionContext::Bare,
        replies.len() > 0,
        replies[0] is Finished,
        !is_on_spec(replies[0]),
    ensures
        ({
            let run = run_spec(s, seq![cmd_word(Cmd::Harbour)], replies);
            &&& count(run.actions, launch_request(s)) == 1
            &&& count(run.actions, attach_request()) == 0
            &&& run.next.env == arm_spec(s.env)
            &&& run.next.memory == Some(ExecutionContext::Bare)
        }),
{
    let argv = seq![cmd_word(Cmd::Harbour)];
    let first = dispatch_spec(s, argv);
    assert(first == harbour_spec(s));
    let probed = resume_spec(first.next, replies[0]);
    assert(probed == launch_spec(first.next));
    assert(launch_request(first.next) == launch_request(s));
    let rest = feed_spec(probed.next, replies.drop_first());
    let run = run_spec(s, argv, replies);
    assert(run.actions == first.actions + (probed.actions + rest.actions));
    lemma_requests_differ(s);
    lemma_feed_last_wait(probed.next, replies.drop_first(), launch_request(s));
    lemma_feed_last_wait(probed.next, replies.drop_first(), attach_request());
    lemma_count_add(first.actions, probed.actions + rest.actions, launch_request(s));
    lemma_count_add(probed.actions, rest.actions, launch_request(s));
    lemma_count_add(first.actions, probed.actions + rest.actions, attach_request());
    lemma_count_add(probed.actions, rest.actions, attach_request());
    lemma_count_none(first.actions, launch_request(s));
    lemma_count_none(first.actions, attach_request());
    lemma_count_none(probed.actions, attach_request());
    reveal_with_fuel(count, 4);
    assert(probed.actions.drop_last().drop_last().drop_last() =~= Seq::<ActionView>::empty());
}

/// In a bare shell, with the managed server alive, `harbour` asks for
/// exactly one attach and never for a session to be created; the
/// sentinel stays as it was.
pub proof fn lemma_bare_alive_attaches(s: SessionView, replies: Seq<Reply>)
    requires
        context_of(s) == ExecutionContext::Bare,
        replies.len() > 0,
        is_on_spec(replies[0]),
    ensures
        ({
            let run = run_spec(s, seq![cmd_word(Cmd::Harbour)], replies);
            &&& count(run.actions, attach_request()) == 1
            &&& count(run.actions, launch_request(s)) == 0
            &&& run.next.env == s.env
        }),
{
    let argv = seq![cmd_word(Cmd::Harbour)];
    let first = dispatch_spec(s, argv);
    assert(first == harbour_spec(s));
    let probed = resume_spec(first.next, replies[0]);
    let rest = feed_spec(probed.next, replies.drop_first());
    let run = run_spec(s, argv, replies);
    assert(run.actions == first.actions + (probed.actions + rest.actions));
    lemma_requests_differ(s);
    lemma_feed_last_wait(probed.next, replies.drop_first(), launch_request(s));
    lemma_feed_last_wait(probed.next, replies.drop_first(), attach_request());
    lemma_count_add(first.actions, probed.actions + rest.actions, launch_request(s));
    lemma_count_add(probed.actions, rest.actions, launch_request(s));
    lemma_count_add(first.actions, probed.actions + rest.actions, attach_request());
    lemma_count_add(probed.actions, rest.actions, attach_request());
    lemma_count_none(first.actions, launch_request(s));
    lemma_count_none(first.actions, attach_request());
    lemma_count_none(probed.actions, launch_request(s));
    reveal_with_fuel(count, 2);
    assert(probed.actions.drop_last() =~= Seq::<ActionView>::empty());
}

/// Outside a bare shell `harbour` touches the managed server not at all:
/// it neither creates a session nor attaches.
pub proof fn lemma_not_bare_leaves_server(s: SessionView, replies: Seq<Reply>)
    requires
        context_of(s) != ExecutionContext::Bare,
    ensures
        ({
            let run = run_spec(s, seq![cmd_word(Cmd::Harbour)], replies);
            &&& count(run.actions, attach_request()) == 0
            &&& count(run.actions, launch_request(s)) == 0
            &&& run.next.env == s.env
        }),
{
    let argv = seq![cmd_word(Cmd::Harbour)];
    let first = dispatch_spec(s, argv);
    assert(first == harbour_spec(s));
    let rest = feed_spec(first.next, replies);
    lemma_count_add(first.actions, rest.actions, launch_request(s));
    lemma_count_add(first.actions, rest.actions, attach_request());
    assert(request(Mode::Capture, None, detach_arg(s.binary)).mode != Mode::Spawn);
    lemma_count_none(first.actions, launch_request(s));
    lemma_count_none(first.actions, attach_request());
    if context_of(s) == ExecutionContext::Nested {
        lemma_feed_at_rest(first.next, replies);
    } else {
        lemma_feed_last_wait(first.next, replies, launch_request(s));
        lemma_feed_last_wait(first.next, replies, attach_request());
    }
}

/// A run leaves with status zero exactly when it did what was asked or
/// turned a set-up away that was not due.
pub proof fn lemma_exit_codes(ending: Ending)
    ensures
        exit_code(ending) == 0 <==> ending == Ending::Done || ending == Ending::SetupRejected,
{
}

/// A process in whose environment neither sentinel is set, and which has
/// not asked before, takes itself to be in a bare shell.
pub proof fn lemma_fresh_bare(s: SessionView)
    requires
        s.memory is None,
        !s.env.contains_key(HARB_VAR@),
        !s.env.contains_key(TMUX_VAR@),
    ensures
        context_of(s) == ExecutionContext::Bare,
{
}

/// The launch writes the sentinel before it asks for the session, so that
/// the session inherits it; and the session is told, in so many words, to
/// stay in the background, that set-up is due, and how to call this
/// program for it.
pub proof fn lemma_launch_order(s: SessionView)
    ensures
        ({
            let step = launch_spec(s);
            &&& step.actions.len() == 3
            &&& step.actions[1] == (ActionView::SetEnv { key: HARB_VAR@, value: PRE_SETUP@ })
            &&& step.actions[2] == ActionView::Exec(launch_request(s))
            &&& step.next.env == arm_spec(s.env)
            &&& setup_due(step.next.env)
            &&& launch_arg(s.binary, s.config) == "new-session -d -e HARBOMUX=pre-setup \""@
                + startup_spec(s.binary, s.config) + "\""@
        }),
{
    lemma_values_differ();
    reveal_strlit("new-session ");
    reveal_strlit("-d -e ");
    reveal_strlit("HARBOMUX");
    reveal_strlit("=");
    reveal_strlit("pre-setup");
    reveal_strlit(" \"");
    reveal_strlit("new-session -d -e HARBOMUX=pre-setup \"");
    assert("new-session "@ + ("-d -e "@ + "HARBOMUX"@ + "="@ + "pre-setup"@ + " \""@)
        =~= "new-session -d -e HARBOMUX=pre-setup \""@);
    assert(launch_arg(s.binary, s.config) =~= "new-session "@ + ("-d -e "@ + "HARBOMUX"@ + "="@
        + "pre-setup"@ + " \""@) + startup_spec(s.binary, s.config) + "\""@);
}

/// The words with which the new session calls this program are read as
/// the hidden verb and its set-up action.
pub proof fn lemma_callback_understood(s: SessionView)
    ensures
        dispatch_spec(s, seq![cmd_word(Cmd::Hidden), hidden_word(HiddenCmd::Setup)])
            == setup_step_spec(s),
{
    lemma_cmd_round_trip(Cmd::Hidden);
}

/// A run that has launched keeps taking itself to be in a bare shell,
/// although the armed sentinel would by now class it as nested.
pub proof fn lemma_launch_keeps_context(s: SessionView, reply: Reply)
    requires
        context_of(s) == ExecutionContext::Bare,
        reply is Finished,
        !is_on_spec(reply),
    ensures
        ({
            let first = harbour_spec(s);
            let launched = resume_spec(first.next, reply).next;
            &&& classify_spec(launched.env) == ExecutionContext::Nested
            &&& context_of(launched) == ExecutionContext::Bare
        }),
{
}

/// Hidden set-up, asked for through the command line, runs exactly once:
/// with the sentinel armed it writes the sentinel and makes it ready; asked
/// again it writes nothing and changes nothing; and neither time does it
/// fail the caller.
pub proof fn lemma_hidden_setup_once(s: SessionView)
    requires
        setup_due(s.env),
    ensures
        ({
            let argv = seq![cmd_word(Cmd::Hidden), hidden_word(HiddenCmd::Setup)];
            let once = dispatch_spec(s, argv);
            let twice = dispatch_spec(once.next, argv);
            &&& once.actions == seq![
                ActionView::Say("setup session..."@),
                ActionView::SetEnv { key: HARB_VAR@, value: READY@ },
                ActionView::Exit(Ending::Done),
            ]
            &&& sentinel_in(once.next.env) == BootstrapSentinel::Ready
            &&& twice.actions == seq![
                ActionView::Say("Setup is not due!"@),
                ActionView::Exit(Ending::SetupRejected),
            ]
            &&& twice.next == once.next
            &&& exit_code(Ending::Done) == 0
            &&& exit_code(Ending::SetupRejected) == 0
        }),
{
    lemma_values_differ();
    lemma_cmd_round_trip(Cmd::Hidden);
    let argv = seq![cmd_word(Cmd::Hidden), hidden_word(HiddenCmd::Setup)];
    assert(dispatch_spec(s, argv) == setup_step_spec(s));
    let once = dispatch_spec(s, argv);
    assert(dispatch_spec(once.next, argv) == setup_step_spec(once.next));
}

/// Hidden set-up with the sentinel in any other state, absent included, is
/// turned away: it writes nothing, leaves the environment as it is, and
/// does not fail the caller.
pub proof fn lemma_hidden_setup_rejected(s: SessionView)
    requires
        !setup_due(s.env),
    ensures
        ({
            let argv = seq![cmd_word(Cmd::Hidden), hidden_word(HiddenCmd::Setup)];
            let step = dispatch_spec(s, argv);
            &&& step.actions == seq![
                ActionView::Say("Setup is not due!"@),
                ActionView::Exit(Ending::SetupRejected),
            ]
            &&& exit_code(Ending::SetupRejected) == 0
            &&& step.next.env == s.env
            &&& step.next.phase == Phase::Finished
        }),
{
    lemma_cmd_round_trip(Cmd::Hidden);
    let argv = seq![cmd_word(Cmd::Hidden), hidden_word(HiddenCmd::Setup)];
    assert(dispatch_spec(s, argv) == setup_step_spec(s));
}

/// An absent sentinel never calls for set-up.
pub proof fn lemma_absent_not_due(env: Map<Seq<char>, Seq<char>>)
    requires
        !env.contains_key(HARB_VAR@),
    ensures
        !setup_due(env),
{
}

/// A word that is no verb is complained of by name, between brackets at
/// the head of the complaint; the usage text follows, and the status is
/// not zero. The environment is left alone.
pub proof fn lemma_unknown_verb(s: SessionView, verb: Seq<char>)
    requires
        cmd_of(verb) is None,
    ensures
        ({
            let step = dispatch_spec(s, seq![verb]);
            &&& step.actions == seq![
                ActionView::Say(unknown_text(verb)),
                ActionView::Say(help_text()),
                ActionView::Exit(Ending::UsageError),
            ]
            &&& unknown_text(verb).subrange(1, verb.len() as int + 1) == verb
            &&& exit_code(Ending::UsageError) != 0
            &&& step.next == (SessionView { phase: Phase::Finished, ..s })
        }),
{
    reveal_strlit("[");
    assert(unknown_text(verb).subrange(1, verb.len() as int + 1) =~= verb);
}

/// `help` prints the usage text and succeeds.
pub proof fn lemma_help_succeeds(s: SessionView)
    ensures
        dispatch_spec(s, seq![cmd_word(Cmd::Help)]).actions == seq![
            ActionView::Say(help_text()),
            ActionView::Exit(Ending::Done),
        ],
        exit_code(Ending::Done) == 0,
{
    lemma_cmd_round_trip(Cmd::Help);
}

} // verus!
