use vstd::prelude::*;
use crate::keys::KeySym;

verus! {

/// A keyboard shortcut: a modifier mask and a key symbol bound to an action.
///
/// The action (with whatever argument it takes) is carried through unchanged;
/// translation only reports which entry of the table to run.
pub struct Shortcut<A> {
    /// Modifiers held to execute the shortcut.
    pub modifiers: usize,
    /// Key pressed to invoke the shortcut.
    pub key_symbol: KeySym,
    /// What to run, and with which argument.
    pub action: A,
}

/// Whether shortcut `s` is bound to the modifier mask `state` and key `sym`.
pub open spec fn shortcut_matches<A>(s: Shortcut<A>, state: u32, sym: KeySym) -> bool {
    s.modifiers == state as usize && s.key_symbol == sym
}

/// Entry `i` of `table` matches, and no entry before it does.
pub open spec fn is_first_match<A>(table: Seq<Shortcut<A>>, state: u32, sym: KeySym, i: int) -> bool {
    &&& 0 <= i < table.len()
    &&& shortcut_matches(table[i], state, sym)
    &&& forall|j: int| 0 <= j < i ==> !shortcut_matches(#[trigger] table[j], state, sym)
}

/// The index of the first entry of `table` that matches, if any does.
pub open spec fn first_match<A>(table: Seq<Shortcut<A>>, state: u32, sym: KeySym) -> Option<int> {
    if exists|i: int| is_first_match(table, state, sym, i) {
        Some(choose|i: int| is_first_match(table, state, sym, i))
    } else {
        None
    }
}

/// At most one entry of a table is its first match.
pub proof fn lemma_first_match_unique<A>(table: Seq<Shortcut<A>>, state: u32, sym: KeySym, i: int, k: int)
    requires
        is_first_match(table, state, sym, i),
        is_first_match(table, state, sym, k),
    ensures
        i == k,
{
    if i < k {
        assert(!shortcut_matches(table[i], state, sym));
    } else if k < i {
        assert(!shortcut_matches(table[k], state, sym));
    }
}

/// The first match is the one index with that property.
pub proof fn lemma_first_match_is<A>(table: Seq<Shortcut<A>>, state: u32, sym: KeySym, i: int)
    requires
        is_first_match(table, state, sym, i),
    ensures
        first_match(table, state, sym) == Some(i),
{
    let k = choose|k: int| is_first_match(table, state, sym, k);
    lemma_first_match_unique(table, state, sym, i, k);
}

impl<A> Shortcut<A> {
    /// Whether this shortcut is bound to modifier mask `state` and key `sym`.
    pub fn matches(&self, state: u32, sym: KeySym) -> (r: bool)
        ensures
            r == shortcut_matches(*self, state, sym),
    {
        self.modifiers == state as usize && self.key_symbol == sym
    }
}

/// Scans `table` in order and returns the index of the first entry bound to
/// `state` and `sym`: table order is priority.
pub fn find_shortcut<A>(table: &Vec<Shortcut<A>>, state: u32, sym: KeySym) -> (r: Option<usize>)
    ensures
        match r {
            Some(i) => is_first_match(table@, state, sym, i as int),
            None => forall|j: int| 0 <= j < table@.len() ==> !shortcut_matches(#[trigger] table@[j], state, sym),
        },
        first_match(table@, state, sym) == match r {
            Some(i) => Some(i as int),
            None => None::<int>,
        },
{
    let mut i: usize = 0;
    while i < table.len()
        invariant
            i <= table@.len(),
            forall|j: int| 0 <= j < i ==> !shortcut_matches(#[trigger] table@[j], state, sym),
        decreases table@.len() - i,
    {
        if table[i].matches(state, sym) {
            proof {
                lemma_first_match_is(table@, state, sym, i as int);
            }
            return Some(i);
        }
        i = i + 1;
    }
    proof {
        assert forall|k: int| !is_first_match(table@, state, sym, k) by {
            if 0 <= k < table@.len() {
                assert(!shortcut_matches(table@[k], state, sym));
            }
        }
    }
    None
}

} // verus!
