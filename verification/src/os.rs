//! The environment sentinel store: the named variables that one process
//! hands to the next, held as plain values.

use vstd::prelude::*;
use vstd::string::*;
use crate::text::same_text;

verus! {

/// One variable of the environment: a name bound to a value.
#[derive(Clone, Debug, PartialEq, Eq)]
pub struct Binding {
    pub key: String,
    pub value: String,
}

/// The value that the first binding of `key` in `entries` gives it, if any.
pub open spec fn lookup(entries: Seq<Binding>, key: Seq<char>) -> Option<Seq<char>>
    decreases entries.len(),
{
    if entries.len() == 0 {
        None
    } else if entries[0].key@ == key {
        Some(entries[0].value@)
    } else {
        lookup(entries.drop_first(), key)
    }
}

/// Bindings that do not name `key` may be skipped from the front.
pub proof fn lemma_lookup_skip(entries: Seq<Binding>, key: Seq<char>, n: int)
    requires
        0 <= n <= entries.len(),
        forall|j: int| 0 <= j < n ==> entries[j].key@ != key,
    ensures
        lookup(entries, key) == lookup(entries.subrange(n, entries.len() as int), key),
    decreases n,
{
    if n == 0 {
        assert(entries.subrange(0, entries.len() as int) =~= entries);
    } else {
        let rest = entries.drop_first();
        assert forall|j: int| 0 <= j < n - 1 implies rest[j].key@ != key by {
            assert(rest[j] == entries[j + 1]);
        }
        lemma_lookup_skip(rest, key, n - 1);
        assert(rest.subrange(n - 1, rest.len() as int) =~= entries.subrange(
            n,
            entries.len() as int,
        ));
    }
}

/// A key that no binding names has no value.
pub proof fn lemma_lookup_absent(entries: Seq<Binding>, key: Seq<char>)
    requires
        forall|j: int| 0 <= j < entries.len() ==> entries[j].key@ != key,
    ensures
        lookup(entries, key) is None,
{
    lemma_lookup_skip(entries, key, entries.len() as int);
}

/// Replacing the first binding of a key by another binding of that key
/// changes the value of that key and of no other.
pub proof fn lemma_lookup_update(entries: Seq<Binding>, at: int, b: Binding, key: Seq<char>)
    requires
        0 <= at < entries.len(),
        entries[at].key@ == b.key@,
        forall|j: int| 0 <= j < at ==> entries[j].key@ != b.key@,
    ensures
        lookup(entries.update(at, b), key) == if key == b.key@ {
            Some(b.value@)
        } else {
            lookup(entries, key)
        },
    decreases at,
{
    let changed = entries.update(at, b);
    if at == 0 {
        assert(changed.drop_first() =~= entries.drop_first());
    } else {
        let rest = entries.drop_first();
        assert forall|j: int| 0 <= j < at - 1 implies rest[j].key@ != b.key@ by {
            assert(rest[j] == entries[j + 1]);
        }
        lemma_lookup_update(rest, at - 1, b, key);
        assert(changed.drop_first() =~= rest.update(at - 1, b));
    }
}

/// A binding added behind all others gives its key a value only where the
/// key had none.
pub proof fn lemma_lookup_push(entries: Seq<Binding>, b: Binding, key: Seq<char>)
    ensures
        lookup(entries.push(b), key) == if lookup(entries, key) is Some {
            lookup(entries, key)
        } else if key == b.key@ {
            Some(b.value@)
        } else {
            None
        },
    decreases entries.len(),
{
    let grown = entries.push(b);
    if entries.len() == 0 {
        assert(grown[0] == b);
        assert(grown.drop_first() =~= Seq::<Binding>::empty());
        assert(lookup(grown.drop_first(), key) is None);
    } else {
        lemma_lookup_push(entries.drop_first(), b, key);
        assert(grown[0] == entries[0]);
        assert(grown.drop_first() =~= entries.drop_first().push(b));
    }
}

/// A snapshot of the process environment. Its view maps each variable that
/// is set to its value.
pub struct Os {
    vars: Vec<Binding>,
}

impl View for Os {
    type V = Map<Seq<char>, Seq<char>>;

    closed spec fn view(&self) -> Map<Seq<char>, Seq<char>> {
        Map::new(
            |k: Seq<char>| lookup(self.vars@, k) is Some,
            |k: Seq<char>| lookup(self.vars@, k)->0,
        )
    }
}

impl Os {
    /// An environment in which no variable is set.
    pub fn new() -> (os: Os)
        ensures
            os@ == Map::<Seq<char>, Seq<char>>::empty(),
    {
        let os = Os { vars: Vec::new() };
        assert(os@ =~= Map::<Seq<char>, Seq<char>>::empty());
        os
    }

    /// Where the first binding of `key` stands, or the number of bindings
    /// where there is none.
    fn position(&self, key: &str) -> (at: usize)
        ensures
            at <= self.vars@.len(),
            forall|j: int| 0 <= j < at ==> self.vars@[j].key@ != key@,
            at < self.vars@.len() ==> self.vars@[at as int].key@ == key@,
    {
        let mut at: usize = 0;
        while at < self.vars.len()
            invariant
                at <= self.vars@.len(),
                forall|j: int| 0 <= j < at ==> self.vars@[j].key@ != key@,
            decreases self.vars@.len() - at,
        {
            if same_text(self.vars[at].key.as_str(), key) {
                return at;
            }
            at += 1;
        }
        at
    }

    /// The value of the variable `key`, or `None` where it is not set.
    pub fn get_env(&self, key: &str) -> (found: Option<String>)
        ensures
            match found {
                Some(value) => self@.contains_key(key@) && self@[key@] == value@,
                None => !self@.contains_key(key@),
            },
    {
        let at = self.position(key);
        proof {
            lemma_lookup_skip(self.vars@, key@, at as int);
        }
        if at < self.vars.len() {
            Some(self.vars[at].value.clone())
        } else {
            None
        }
    }

    /// Sets the variable `key` to `val`, whether or not it was set before.
    /// No other variable changes.
    pub fn set_env(&mut self, key: &str, val: &str)
        ensures
            final(self)@ == old(self)@.insert(key@, val@),
    {
        let at = self.position(key);
        let b = Binding { key: String::from_str(key), value: String::from_str(val) };
        if at < self.vars.len() {
            self.vars.set(at, b);
            proof {
                assert forall|k: Seq<char>|
                    lookup(self.vars@, k) == if k == key@ {
                        Some(val@)
                    } else {
                        lookup(old(self).vars@, k)
                    } by {
                    lemma_lookup_update(old(self).vars@, at as int, b, k);
                }
            }
        } else {
            self.vars.push(b);
            proof {
                lemma_lookup_absent(old(self).vars@, key@);
                assert forall|k: Seq<char>|
                    lookup(self.vars@, k) == if k == key@ {
                        Some(val@)
                    } else {
                        lookup(old(self).vars@, k)
                    } by {
                    lemma_lookup_push(old(self).vars@, b, k);
                }
            }
        }
        assert(self@ =~= old(self)@.insert(key@, val@));
    }

    /// Whether the variable `var` is set, to whatever value.
    pub fn has_env(&self, var: &str) -> (present: bool)
        ensures
            present == self@.contains_key(var@),
    {
        self.get_env(var).is_some()
    }
}

} // verus!
