//! The symbol table used during lowering: identifier to semantic entry.
//!
//! One flat mapping per compilation unit; `declare` inserts or overwrites (a
//! redeclaration silently shadows the previous binding), `resolve` looks the
//! current binding up. Abstractly the table is a [`Map`] from the identifier's
//! characters to its entry.

use crate::ir::Value;
use vstd::prelude::*;

verus! {

/// What an identifier is bound to: a compile-time constant value, or the
/// handle of the IR value that currently holds the variable's content.
#[derive(Debug, Clone, Copy)]
pub enum SymbolsEntry {
    Const(i32),
    Variable(Value),
}

/// The symbol table: a flat association list, newest binding last.
#[derive(Debug)]
pub struct SymbolTable {
    entries: Vec<(String, SymbolsEntry)>,
}

/// The mapping denoted by an association list; later pairs shadow earlier
/// ones.
pub open spec fn entries_map(s: Seq<(String, SymbolsEntry)>) -> Map<Seq<char>, SymbolsEntry>
    decreases s.len(),
{
    if s.len() == 0 {
        Map::empty()
    } else {
        entries_map(s.drop_last()).insert(s.last().0@, s.last().1)
    }
}

impl View for SymbolTable {
    type V = Map<Seq<char>, SymbolsEntry>;

    closed spec fn view(&self) -> Map<Seq<char>, SymbolsEntry> {
        entries_map(self.entries@)
    }
}

/// If no pair at an index at or past `i` carries the key `k`, the first `i`
/// pairs already settle `k`.
proof fn lemma_entries_map_prefix(s: Seq<(String, SymbolsEntry)>, i: int, k: Seq<char>)
    requires
        0 <= i <= s.len(),
        forall|j: int| i <= j < s.len() ==> (#[trigger] s[j]).0@ != k,
    ensures
        entries_map(s).contains_key(k) == entries_map(s.subrange(0, i)).contains_key(k),
        entries_map(s).contains_key(k) ==> entries_map(s)[k] == entries_map(s.subrange(0, i))[k],
    decreases s.len() - i,
{
    if i < s.len() {
        lemma_entries_map_prefix(s, i + 1, k);
        let t = s.subrange(0, i + 1);
        assert(t.drop_last() =~= s.subrange(0, i));
        assert(t.last() == s[i]);
        assert(entries_map(s.subrange(0, i + 1)) == entries_map(s.subrange(0, i)).insert(
            s[i].0@,
            s[i].1,
        ));
    } else {
        assert(s.subrange(0, i) =~= s);
    }
}

impl SymbolTable {
    /// An empty table.
    pub fn new() -> (r: SymbolTable)
        ensures
            r@ =~= Map::<Seq<char>, SymbolsEntry>::empty(),
    {
        SymbolTable { entries: Vec::new() }
    }

    /// Binds `name` to `entry`, shadowing any previous binding of `name`.
    pub fn declare(&mut self, name: String, entry: SymbolsEntry)
        ensures
            final(self)@ == old(self)@.insert(name@, entry),
    {
        let ghost s0 = self.entries@;
        self.entries.push((name, entry));
        proof {
            assert(self.entries@.drop_last() =~= s0);
        }
    }

    /// Looks the current binding of `name` up; `None` when `name` was never
    /// declared.
    pub fn resolve(&self, name: &String) -> (r: Option<SymbolsEntry>)
        ensures
            match r {
                Some(e) => self@.contains_key(name@) && self@[name@] == e,
                None => !self@.contains_key(name@),
            },
    {
        let mut i: usize = self.entries.len();
        while i > 0
            invariant
                i <= self.entries.len(),
                forall|j: int| i <= j < self.entries@.len() ==> (#[trigger] self.entries@[j]).0@
                    != name@,
            decreases i,
        {
            i = i - 1;
            if self.entries[i].0 == *name {
                proof {
                    lemma_entries_map_prefix(self.entries@, i + 1, name@);
                    let t = self.entries@.subrange(0, i + 1);
                    assert(t.drop_last() =~= self.entries@.subrange(0, i as int));
                    assert(t.last() == self.entries@[i as int]);
                }
                return Some(self.entries[i].1);
            }
        }
        proof {
            lemma_entries_map_prefix(self.entries@, 0, name@);
            assert(self.entries@.subrange(0, 0) =~= Seq::<(String, SymbolsEntry)>::empty());
        }
        None
    }
}

} // verus!
