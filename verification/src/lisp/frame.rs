//! A frame: the bindings of one scope.

use crate::lisp::symbol::Symbol;
use crate::lisp::symbol::SymbolModel;
use vstd::prelude::*;

verus! {

/// The bindings that a run of entries makes: a later entry replaces an
/// earlier one of the same name.
pub open spec fn bindings<F>(entries: Seq<(String, Symbol<F>)>) -> Map<Seq<char>, SymbolModel<F>>
    decreases entries.len(),
{
    if entries.len() == 0 {
        Map::empty()
    } else {
        bindings(entries.drop_last()).insert(entries.last().0@, entries.last().1@)
    }
}

/// Whether the entry at `index` is the last one of the name `key`.
pub open spec fn is_last_of<F>(entries: Seq<(String, Symbol<F>)>, key: Seq<char>, index: int) -> bool {
    &&& 0 <= index < entries.len()
    &&& entries[index].0@ == key
    &&& forall|later: int| index < later < entries.len() ==> (#[trigger] entries[later]).0@ != key
}

/// A name that no entry has is not bound.
pub proof fn lemma_bindings_without<F>(entries: Seq<(String, Symbol<F>)>, key: Seq<char>)
    requires
        forall|index: int| 0 <= index < entries.len() ==> (#[trigger] entries[index]).0@ != key,
    ensures
        !bindings(entries).contains_key(key),
    decreases entries.len(),
{
    if entries.len() > 0 {
        lemma_bindings_without(entries.drop_last(), key);
    }
}

/// A name is bound to what its last entry holds.
pub proof fn lemma_bindings_last<F>(entries: Seq<(String, Symbol<F>)>, key: Seq<char>, index: int)
    requires
        is_last_of(entries, key, index),
    ensures
        bindings(entries).contains_key(key),
        bindings(entries)[key] == entries[index].1@,
    decreases entries.len(),
{
    if index < entries.len() - 1 {
        assert(entries.last().0@ != key);
        lemma_bindings_last(entries.drop_last(), key, index);
    }
}

/// To replace the last entry of a name is to bind the name anew.
pub proof fn lemma_bindings_replaced<F>(
    entries: Seq<(String, Symbol<F>)>,
    index: int,
    entry: (String, Symbol<F>),
)
    requires
        is_last_of(entries, entry.0@, index),
    ensures
        bindings(entries.update(index, entry)) == bindings(entries).insert(entry.0@, entry.1@),
    decreases entries.len(),
{
    let replaced = entries.update(index, entry);
    if index == entries.len() - 1 {
        assert(replaced.drop_last() =~= entries.drop_last());
        assert(bindings(replaced) =~= bindings(entries).insert(entry.0@, entry.1@));
    } else {
        assert(entries.last().0@ != entry.0@);
        lemma_bindings_replaced(entries.drop_last(), index, entry);
        assert(replaced.drop_last() =~= entries.drop_last().update(index, entry));
        assert(replaced.last() == entries.last());
        assert(bindings(replaced) =~= bindings(entries).insert(entry.0@, entry.1@));
    }
}

/// The bindings of one scope: at most one for a name.
pub struct Frame<F> {
    symbols: Vec<(String, Symbol<F>)>,
}

impl<F> View for Frame<F> {
    type V = Map<Seq<char>, SymbolModel<F>>;

    closed spec fn view(&self) -> Map<Seq<char>, SymbolModel<F>> {
        bindings(self.symbols@)
    }
}

impl<F: Copy> Frame<F> {
    /// A frame without bindings.
    pub fn new() -> (frame: Self)
        ensures
            frame@ == Map::<Seq<char>, SymbolModel<F>>::empty(),
    {
        Frame { symbols: Vec::new() }
    }

    /// Where the last entry of the name `key` stands.
    fn find(&self, key: &str) -> (found: Option<usize>)
        ensures
            match found {
                Some(index) => is_last_of(self.symbols@, key@, index as int),
                None => forall|index: int|
                    0 <= index < self.symbols@.len() ==> (#[trigger] self.symbols@[index]).0@
                        != key@,
            },
    {
        let wanted = key.to_owned();
        let mut index: usize = self.symbols.len();
        while index > 0
            invariant
                index <= self.symbols.len(),
                wanted@ == key@,
                forall|later: int|
                    index <= later < self.symbols@.len() ==> (#[trigger] self.symbols@[later]).0@
                        != key@,
            decreases index,
        {
            index -= 1;
            if self.symbols[index].0 == wanted {
                return Some(index);
            }
        }
        None
    }

    /// Binds `key` to `value`, and hands back what it was bound to before.
    pub fn insert(&mut self, key: String, value: Symbol<F>) -> (previous: Option<Symbol<F>>)
        ensures
            final(self)@ == old(self)@.insert(key@, value@),
            match previous {
                Some(symbol) => old(self)@.contains_key(key@) && symbol@ == old(self)@[key@],
                None => !old(self)@.contains_key(key@),
            },
    {
        match self.find(key.as_str()) {
            Some(index) => {
                proof {
                    lemma_bindings_last(self.symbols@, key@, index as int);
                    lemma_bindings_replaced(self.symbols@, index as int, (key, value));
                }
                let previous = self.symbols[index].1.clone();
                self.symbols.set(index, (key, value));
                Some(previous)
            },
            None => {
                proof {
                    lemma_bindings_without(self.symbols@, key@);
                    assert(self.symbols@.push((key, value)).drop_last() =~= self.symbols@);
                }
                self.symbols.push((key, value));
                None
            },
        }
    }

    /// What `symbol` is bound to in this frame.
    pub fn try_get(&self, symbol: &str) -> (found: Option<Symbol<F>>)
        ensures
            match found {
                Some(bound) => self@.contains_key(symbol@) && bound@ == self@[symbol@],
                None => !self@.contains_key(symbol@),
            },
    {
        match self.find(symbol) {
            Some(index) => {
                proof {
                    lemma_bindings_last(self.symbols@, symbol@, index as int);
                }
                Some(self.symbols[index].1.clone())
            },
            None => {
                proof {
                    lemma_bindings_without(self.symbols@, symbol@);
                }
                None
            },
        }
    }
}

} // verus!
