//! The variable scope: an ordered stack of named entries.

use vstd::prelude::*;
use crate::any::{Dynamic, Value};
use crate::text::str_eq;

verus! {

/// Type of an entry in the scope.
#[derive(Debug, Eq, PartialEq, Structural, Hash, Copy, Clone)]
pub enum EntryType {
    /// Normal value.
    Normal,
    /// Immutable constant value.
    Constant,
}

/// An entry in the scope.
#[derive(Debug)]
pub struct Entry {
    /// Name of the entry.
    pub name: String,
    /// Type of the entry.
    pub typ: EntryType,
    /// Current value of the entry.
    pub value: Dynamic,
}

/// The mathematical model of an `Entry`.
pub struct EntryValue {
    pub name: Seq<char>,
    pub typ: EntryType,
    pub value: Value,
}

impl View for Entry {
    type V = EntryValue;

    open spec fn view(&self) -> EntryValue {
        EntryValue { name: self.name@, typ: self.typ, value: self.value@ }
    }
}

/// The models of a sequence of entries, in order.
pub open spec fn entry_values(s: Seq<Entry>) -> Seq<EntryValue> {
    Seq::new(s.len(), |i: int| s[i]@)
}

/// Position of the newest entry below `upto` that has the given name.
pub open spec fn find_below(s: Seq<EntryValue>, name: Seq<char>, upto: int) -> Option<int>
    decreases upto,
{
    if upto <= 0 || upto > s.len() {
        None
    } else if s[upto - 1].name == name {
        Some(upto - 1)
    } else {
        find_below(s, name, upto - 1)
    }
}

/// Position of the newest entry that has the given name: newer entries shadow older ones.
pub open spec fn find_entry(s: Seq<EntryValue>, name: Seq<char>) -> Option<int> {
    find_below(s, name, s.len() as int)
}

/// Shadowing: what a lookup below `upto` gives is a position of the name,
/// and no newer position below `upto` holds the name; it gives nothing only
/// where no position below `upto` holds the name.
pub proof fn law_lookup_finds_newest(s: Seq<EntryValue>, name: Seq<char>, upto: int)
    requires
        upto <= s.len(),
    ensures
        match find_below(s, name, upto) {
            Some(i) => 0 <= i < upto && s[i].name == name && forall|j: int|
                i < j < upto ==> s[j].name != name,
            None => forall|j: int| 0 <= j < upto ==> s[j].name != name,
        },
    decreases upto,
{
    if upto > 0 && s[upto - 1].name != name {
        law_lookup_finds_newest(s, name, upto - 1);
    }
}

/// A type containing information about the current scope: an ordered stack
/// of named entries. When searching for entries, newly-added entries are found
/// before similarly-named but older entries, allowing for automatic shadowing.
#[derive(Debug)]
pub struct Scope {
    pub entries: Vec<Entry>,
}

impl View for Scope {
    type V = Seq<EntryValue>;

    open spec fn view(&self) -> Seq<EntryValue> {
        entry_values(self.entries@)
    }
}

impl Scope {
    /// Create a new, empty scope.
    pub fn new() -> (s: Scope)
        ensures
            s@ == Seq::<EntryValue>::empty(),
    {
        let s = Scope { entries: Vec::new() };
        assert(s@ =~= Seq::<EntryValue>::empty());
        s
    }

    /// Empty the scope.
    pub fn clear(&mut self)
        ensures
            final(self)@ == Seq::<EntryValue>::empty(),
    {
        self.entries.clear();
        assert(self@ =~= Seq::<EntryValue>::empty());
    }

    /// Get the number of entries inside the scope.
    pub fn len(&self) -> (n: usize)
        ensures
            n == self@.len(),
    {
        self.entries.len()
    }

    /// Is the scope empty?
    pub fn is_empty(&self) -> (b: bool)
        ensures
            b == (self@.len() == 0),
    {
        self.entries.len() == 0
    }

    /// Add (push) a new entry to the scope.
    pub fn push(&mut self, name: &str, value: Dynamic)
        ensures
            final(self)@ == old(self)@.push(
                EntryValue { name: name@, typ: EntryType::Normal, value: value@ },
            ),
    {
        self.push_dynamic_value(name, EntryType::Normal, value);
    }

    /// Add (push) a new `Dynamic` entry to the scope.
    pub fn push_dynamic(&mut self, name: &str, value: Dynamic)
        ensures
            final(self)@ == old(self)@.push(
                EntryValue { name: name@, typ: EntryType::Normal, value: value@ },
            ),
    {
        self.push_dynamic_value(name, EntryType::Normal, value);
    }

    /// Add (push) a new constant to the scope.
    ///
    /// Constants are immutable and cannot be assigned to. Their values never change.
    pub fn push_constant(&mut self, name: &str, value: Dynamic)
        ensures
            final(self)@ == old(self)@.push(
                EntryValue { name: name@, typ: EntryType::Constant, value: value@ },
            ),
    {
        self.push_dynamic_value(name, EntryType::Constant, value);
    }

    /// Add (push) a new constant with a `Dynamic` value to the scope.
    pub fn push_constant_dynamic(&mut self, name: &str, value: Dynamic)
        ensures
            final(self)@ == old(self)@.push(
                EntryValue { name: name@, typ: EntryType::Constant, value: value@ },
            ),
    {
        self.push_dynamic_value(name, EntryType::Constant, value);
    }

    /// Add (push) a new entry of the given type to the scope.
    pub fn push_dynamic_value(&mut self, name: &str, entry_type: EntryType, value: Dynamic)
        ensures
            final(self)@ == old(self)@.push(
                EntryValue { name: name@, typ: entry_type, value: value@ },
            ),
    {
        self.entries.push(Entry { name: name.to_owned(), typ: entry_type, value });
        assert(self@ =~= old(self)@.push(
            EntryValue { name: name@, typ: entry_type, value: value@ },
        ));
    }

    /// Add (push) the given entries to the scope, in their order.
    pub fn extend(&mut self, entries: Vec<(String, EntryType, Dynamic)>)
        ensures
            final(self)@ == old(self)@ + Seq::new(
                entries@.len(),
                |i: int| EntryValue { name: entries@[i].0@, typ: entries@[i].1, value: entries@[i].2@ },
            ),
    {
        let ghost added = Seq::new(
            entries@.len(),
            |i: int| EntryValue { name: entries@[i].0@, typ: entries@[i].1, value: entries@[i].2@ },
        );
        let n = entries.len();
        // The entries are taken from the back, so the list is turned round first.
        let mut list = entries;
        let mut rev: Vec<(String, EntryType, Dynamic)> = Vec::new();
        while list.len() > 0
            invariant
                list@.len() + rev@.len() == n,
                n == entries@.len(),
                forall|k: int| 0 <= k < list@.len() ==> list@[k] == entries@[k],
                forall|k: int| 0 <= k < rev@.len() ==> rev@[k] == entries@[n - 1 - k],
            decreases list@.len(),
        {
            let e = list.pop().unwrap();
            rev.push(e);
        }
        let mut i: usize = 0;
        assert(self@ =~= old(self)@ + added.subrange(0, 0));
        while i < n
            invariant
                i <= n,
                n == entries@.len(),
                rev@.len() == n - i,
                forall|k: int| 0 <= k < rev@.len() ==> rev@[k] == entries@[n - 1 - k],
                added.len() == n,
                forall|k: int|
                    0 <= k < n ==> added[k] == (EntryValue {
                        name: entries@[k].0@,
                        typ: entries@[k].1,
                        value: entries@[k].2@,
                    }),
                self@ == old(self)@ + added.subrange(0, i as int),
            decreases n - i,
        {
            let ghost before = self@;
            let (name, typ, value) = rev.pop().unwrap();
            self.entries.push(Entry { name, typ, value });
            assert(self@ =~= before.push(added[i as int]));
            assert(self@ =~= old(self)@ + added.subrange(0, i + 1));
            i += 1;
        }
        assert(added.subrange(0, n as int) =~= added);
    }

    /// Truncate (rewind) the scope to a previous size. A size that is not
    /// smaller than the current one leaves the scope as it is.
    pub fn rewind(&mut self, size: usize)
        ensures
            size <= old(self)@.len() ==> final(self)@ == old(self)@.subrange(0, size as int),
            size > old(self)@.len() ==> final(self)@ == old(self)@,
    {
        self.entries.truncate(size);
        proof {
            if size <= old(self).entries.len() {
                assert(self@ =~= old(self)@.subrange(0, size as int));
            } else {
                assert(self@ =~= old(self)@);
            }
        }
    }

    /// Does the scope contain an entry of this name?
    pub fn contains(&self, name: &str) -> (b: bool)
        ensures
            b == find_entry(self@, name@).is_some(),
    {
        self.get(name).is_some()
    }

    /// Find an entry in the scope, starting from the last.
    pub fn get(&self, name: &str) -> (r: Option<(usize, EntryType)>)
        ensures
            match r {
                Some((index, typ)) => find_entry(self@, name@) == Some(index as int)
                    && index < self@.len() && typ == self@[index as int].typ,
                None => find_entry(self@, name@).is_none(),
            },
    {
        let mut i: usize = self.entries.len();
        while i > 0
            invariant
                i <= self.entries.len(),
                find_entry(self@, name@) == find_below(self@, name@, i as int),
            decreases i,
        {
            if str_eq(self.entries[i - 1].name.as_str(), name) {
                return Some((i - 1, self.entries[i - 1].typ));
            }
            i -= 1;
        }
        None
    }

    /// Get a copy of the value of an entry in the scope, starting from the last.
    pub fn get_value(&self, name: &str) -> (r: Option<Dynamic>)
        ensures
            match r {
                Some(v) => find_entry(self@, name@).is_some() && v@ == self@[find_entry(
                    self@,
                    name@,
                ).unwrap()].value,
                None => find_entry(self@, name@).is_none(),
            },
    {
        match self.get(name) {
            Some((index, _)) => Some(self.entries[index].value.clone()),
            None => None,
        }
    }

    /// Update the value of the named entry.
    /// Search starts backwards from the last, and only the first entry matching
    /// the specified name is updated. If no entry matching the specified name is
    /// found, a new one is added.
    ///
    /// The named entry must not be a constant.
    pub fn set_value(&mut self, name: &str, value: Dynamic)
        requires
            find_entry(old(self)@, name@) matches Some(i) ==> old(self)@[i].typ
                == EntryType::Normal,
        ensures
            final(self)@ == assign(old(self)@, name@, value@),
    {
        match self.get(name) {
            Some((index, _)) => {
                self.entries[index].value = value;
                assert(self@ =~= assign(old(self)@, name@, value@));
            },
            None => {
                self.push(name, value);
            },
        }
    }

    /// Replace the value of the entry at the given position.
    pub fn set_at(&mut self, index: usize, value: Dynamic)
        requires
            index < old(self)@.len(),
        ensures
            final(self)@ == old(self)@.update(
                index as int,
                EntryValue { value: value@, ..old(self)@[index as int] },
            ),
    {
        self.entries[index].value = value;
        assert(self@ =~= old(self)@.update(
            index as int,
            EntryValue { value: value@, ..old(self)@[index as int] },
        ));
    }

    /// Get a mutable reference to the value of an entry in the scope, with the entry's type.
    pub fn get_mut(&mut self, index: usize) -> (r: (&mut Dynamic, EntryType))
        requires
            index < old(self)@.len(),
        ensures
            r.0@ == old(self)@[index as int].value,
            r.1 == old(self)@[index as int].typ,
            final(self)@ == old(self)@.update(
                index as int,
                EntryValue { value: final(r.0)@, ..old(self)@[index as int] },
            ),
    {
        let typ = self.entries[index].typ;
        let entry = &mut self.entries[index];
        (&mut entry.value, typ)
    }

    /// The entries of the scope, newest first, each with a copy of its value.
    pub fn iter(&self) -> (r: Vec<Entry>)
        ensures
            r@.len() == self@.len(),
            forall|i: int| 0 <= i < r@.len() ==> r[i]@ == self@[self@.len() - 1 - i],
    {
        let mut out: Vec<Entry> = Vec::new();
        let mut i: usize = self.entries.len();
        while i > 0
            invariant
                i <= self.entries.len(),
                out@.len() == self.entries.len() - i,
                forall|j: int| 0 <= j < out@.len() ==> out[j]@ == self@[self@.len() - 1 - j],
            decreases i,
        {
            let e = &self.entries[i - 1];
            out.push(Entry { name: e.name.clone(), typ: e.typ, value: e.value.clone() });
            i -= 1;
        }
        out
    }
}

/// The scope after the newest entry of the given name took a new value, or,
/// where no entry has that name, after a normal entry of that name was added.
pub open spec fn assign(s: Seq<EntryValue>, name: Seq<char>, value: Value) -> Seq<EntryValue> {
    match find_entry(s, name) {
        Some(i) => s.update(i, EntryValue { value, ..s[i] }),
        None => s.push(EntryValue { name, typ: EntryType::Normal, value }),
    }
}

impl Default for Scope {
    fn default() -> (s: Scope)
        ensures
            s@ == Seq::<EntryValue>::empty(),
    {
        Scope::new()
    }
}

} // verus!
