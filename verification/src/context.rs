//! The execution-context classifier: where the current process runs, decided
//! from two sentinel variables and remembered from the first answer on.

use vstd::prelude::*;
use once_cell::sync::OnceCell;
use crate::os::Os;

verus! {

/// The variable that marks a process as running inside the managed server.
pub const HARB_VAR: &'static str = "HARBOMUX";

/// The variable that the multiplexer sets inside each of its sessions.
pub const TMUX_VAR: &'static str = "TMUX";

/// Where a process runs, as far as this tool cares.
#[derive(Clone, Copy, Debug, PartialEq, Eq, Structural)]
pub enum ExecutionContext {
    /// Inside the managed server.
    Nested,
    /// Inside a multiplexer session that this tool does not own.
    PlainMultiplexer,
    /// No multiplexer is active.
    Bare,
}

/// The word by which a context is reported.
pub open spec fn context_word(context: ExecutionContext) -> Seq<char> {
    match context {
        ExecutionContext::Nested => "nested"@,
        ExecutionContext::PlainMultiplexer => "plain-multiplexer"@,
        ExecutionContext::Bare => "bare"@,
    }
}

impl ExecutionContext {
    /// The word by which this context is reported.
    pub fn name(&self) -> (word: &'static str)
        ensures
            word@ == context_word(*self),
    {
        match self {
            ExecutionContext::Nested => "nested",
            ExecutionContext::PlainMultiplexer => "plain-multiplexer",
            ExecutionContext::Bare => "bare",
        }
    }
}

/// The context that an environment stands for. The managed server's
/// sentinel is looked at first; values play no part, only presence.
pub open spec fn classify_spec(env: Map<Seq<char>, Seq<char>>) -> ExecutionContext {
    if env.contains_key(HARB_VAR@) {
        ExecutionContext::Nested
    } else if env.contains_key(TMUX_VAR@) {
        ExecutionContext::PlainMultiplexer
    } else {
        ExecutionContext::Bare
    }
}

/// Classifies the environment `os`.
pub fn classify(os: &Os) -> (context: ExecutionContext)
    ensures
        context == classify_spec(os@),
{
    if os.has_env(HARB_VAR) {
        ExecutionContext::Nested
    } else if os.has_env(TMUX_VAR) {
        ExecutionContext::PlainMultiplexer
    } else {
        ExecutionContext::Bare
    }
}

/// Every environment falls under exactly one context, and which one is
/// fixed by the presence of the two sentinels alone.
pub proof fn lemma_classify_total(env: Map<Seq<char>, Seq<char>>)
    ensures
        classify_spec(env) == ExecutionContext::Nested <==> env.contains_key(HARB_VAR@),
        classify_spec(env) == ExecutionContext::PlainMultiplexer <==> !env.contains_key(HARB_VAR@)
            && env.contains_key(TMUX_VAR@),
        classify_spec(env) == ExecutionContext::Bare <==> !env.contains_key(HARB_VAR@)
            && !env.contains_key(TMUX_VAR@),
{
}

/// Two environments that agree on which sentinels are present are
/// classified alike, whatever else they hold.
pub proof fn lemma_classify_deterministic(
    a: Map<Seq<char>, Seq<char>>,
    b: Map<Seq<char>, Seq<char>>,
)
    requires
        a.contains_key(HARB_VAR@) == b.contains_key(HARB_VAR@),
        a.contains_key(TMUX_VAR@) == b.contains_key(TMUX_VAR@),
    ensures
        classify_spec(a) == classify_spec(b),
{
}

/// `once_cell::sync::OnceCell`, carried as an opaque value.
#[verifier::external_type_specification]
#[verifier::external_body]
#[verifier::reject_recursive_types(T)]
pub struct ExOnceCell<T>(OnceCell<T>);

/// The contexts that a cell holds, which are none or one.
pub uninterp spec fn cell_items(cell: OnceCell<ExecutionContext>) -> Seq<ExecutionContext>;

/// `once_cell::sync::OnceCell::new`: the cell it makes is empty.
#[verifier::external_body]
fn cell_new() -> (cell: OnceCell<ExecutionContext>)
    ensures
        cell_items(cell) == Seq::<ExecutionContext>::empty(),
{
    OnceCell::new()
}

/// `once_cell::sync::OnceCell::get`: the value in the cell, or `None` while
/// the cell is empty. The cell is left as it was.
#[verifier::external_body]
fn cell_get(cell: &OnceCell<ExecutionContext>) -> (held: Option<ExecutionContext>)
    ensures
        held == first_of(cell_items(*cell)),
{
    cell.get().copied()
}

/// `once_cell::sync::OnceCell::set`: an empty cell takes the value and
/// answers `Ok`; a full cell keeps what it holds and hands the offered
/// value back in `Err`.
#[verifier::external_body]
fn cell_set(cell: &mut OnceCell<ExecutionContext>, value: ExecutionContext) -> (done: Result<
    (),
    ExecutionContext,
>)
    ensures
        done is Ok <==> cell_items(*old(cell)).len() == 0,
        done is Err ==> done->Err_0 == value,
        cell_items(*final(cell)) == if cell_items(*old(cell)).len() == 0 {
            seq![value]
        } else {
            cell_items(*old(cell))
        },
{
    cell.set(value)
}

/// The first of some items, if there is one.
pub open spec fn first_of(items: Seq<ExecutionContext>) -> Option<ExecutionContext> {
    if items.len() == 0 {
        None
    } else {
        Some(items[0])
    }
}

/// What a classification through a memory answers, and what the memory
/// holds afterwards: the remembered context where there is one, else the
/// context of `env`, which is then remembered.
pub open spec fn remember_spec(
    memory: Option<ExecutionContext>,
    env: Map<Seq<char>, Seq<char>>,
) -> (ExecutionContext, Option<ExecutionContext>) {
    match memory {
        Some(first) => (first, memory),
        None => (classify_spec(env), Some(classify_spec(env))),
    }
}

/// The classification of one process: taken from the environment on first
/// use and never again. Its view is the context remembered so far.
pub struct ContextCache {
    cell: OnceCell<ExecutionContext>,
}

impl View for ContextCache {
    type V = Option<ExecutionContext>;

    closed spec fn view(&self) -> Option<ExecutionContext> {
        first_of(cell_items(self.cell))
    }
}

impl ContextCache {
    /// A memory that holds nothing yet.
    pub fn new() -> (cache: ContextCache)
        ensures
            cache@ is None,
    {
        ContextCache { cell: cell_new() }
    }

    /// The context remembered so far, if any.
    pub fn peek(&self) -> (held: Option<ExecutionContext>)
        ensures
            held == self@,
    {
        cell_get(&self.cell)
    }

    /// The context of this process. The first call classifies `os` and
    /// remembers the answer; every later call gives that answer again,
    /// whatever `os` holds by then.
    pub fn classify(&mut self, os: &Os) -> (context: ExecutionContext)
        ensures
            (context, final(self)@) == remember_spec(old(self)@, os@),
    {
        match cell_get(&self.cell) {
            Some(first) => first,
            None => {
                let fresh = classify(os);
                let _ = cell_set(&mut self.cell, fresh);
                fresh
            },
        }
    }
}

/// Once a memory has answered, it answers the same for every environment
/// and stays as it is.
pub proof fn lemma_classify_snapshot(
    memory: Option<ExecutionContext>,
    first_env: Map<Seq<char>, Seq<char>>,
    later_env: Map<Seq<char>, Seq<char>>,
)
    ensures
        remember_spec(remember_spec(memory, first_env).1, later_env) == (
            remember_spec(memory, first_env).0,
            remember_spec(memory, first_env).1,
        ),
        memory is None ==> remember_spec(memory, first_env).0 == classify_spec(first_env),
{
}

} // verus!
