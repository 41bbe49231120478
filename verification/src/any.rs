//! The dynamic value type.

use vstd::prelude::*;
use crate::text::str_eq;

verus! {

/// Type identity of the unit value.
pub const TYPE_ID_UNIT: u64 = 1;

/// Type identity of booleans.
pub const TYPE_ID_BOOL: u64 = 2;

/// Type identity of integers.
pub const TYPE_ID_INT: u64 = 3;

/// Type identity of characters.
pub const TYPE_ID_CHAR: u64 = 4;

/// Type identity of strings.
pub const TYPE_ID_STRING: u64 = 5;

/// Type identity of arrays.
pub const TYPE_ID_ARRAY: u64 = 6;

/// Type identity of object maps.
pub const TYPE_ID_MAP: u64 = 7;

/// The single runtime value type: a tagged union.
///
/// Collections own their elements; an object map is a list of entries in
/// insertion order in which a key is looked up from the front.
#[derive(Debug)]
pub enum Dynamic {
    Unit,
    Bool(bool),
    Int(i64),
    Char(char),
    Str(String),
    Array(Vec<Dynamic>),
    ObjMap(Vec<(String, Dynamic)>),
    /// An opaque host value: its type identity, its type name and its contents.
    Custom(u64, String, Vec<u8>),
}

/// The mathematical value that a `Dynamic` stands for.
pub enum Value {
    Unit,
    Bool(bool),
    Int(i64),
    Char(char),
    Str(Seq<char>),
    Array(Seq<Value>),
    ObjMap(Seq<(Seq<char>, Value)>),
    Custom(u64, Seq<char>, Seq<u8>),
}

/// A sequence of mathematical values.
pub type Values = Seq<Value>;

/// A text as a sequence of characters.
pub type Text = Seq<char>;

/// The values that a sequence of `Dynamic`s stands for.
pub open spec fn values_of(s: Seq<Dynamic>) -> Seq<Value>
    decreases s,
{
    Seq::new(
        s.len(),
        |i: int|
            if 0 <= i < s.len() {
                s[i].view()
            } else {
                Value::Unit
            },
    )
}

/// The entries that a sequence of keyed `Dynamic`s stands for.
pub open spec fn entries_of(s: Seq<(String, Dynamic)>) -> Seq<(Seq<char>, Value)>
    decreases s,
{
    Seq::new(
        s.len(),
        |i: int|
            if 0 <= i < s.len() {
                (s[i].0@, s[i].1.view())
            } else {
                (Seq::empty(), Value::Unit)
            },
    )
}

impl View for Dynamic {
    type V = Value;

    open spec fn view(&self) -> Value
        decreases self,
    {
        match self {
            Dynamic::Unit => Value::Unit,
            Dynamic::Bool(b) => Value::Bool(*b),
            Dynamic::Int(i) => Value::Int(*i),
            Dynamic::Char(c) => Value::Char(*c),
            Dynamic::Str(s) => Value::Str(s@),
            Dynamic::Array(a) => Value::Array(values_of(a@)),
            Dynamic::ObjMap(m) => Value::ObjMap(entries_of(m@)),
            Dynamic::Custom(id, name, data) => Value::Custom(*id, name@, data@),
        }
    }
}


impl Value {
    /// The stable identity of the value's type, used for dispatch.
    pub open spec fn type_id(self) -> u64 {
        match self {
            Value::Unit => TYPE_ID_UNIT,
            Value::Bool(_) => TYPE_ID_BOOL,
            Value::Int(_) => TYPE_ID_INT,
            Value::Char(_) => TYPE_ID_CHAR,
            Value::Str(_) => TYPE_ID_STRING,
            Value::Array(_) => TYPE_ID_ARRAY,
            Value::ObjMap(_) => TYPE_ID_MAP,
            Value::Custom(id, _, _) => id,
        }
    }

    /// The name of the value's type, used for diagnostics.
    pub open spec fn type_label(self) -> Seq<char> {
        match self {
            Value::Unit => "()"@,
            Value::Bool(_) => "bool"@,
            Value::Int(_) => "i64"@,
            Value::Char(_) => "char"@,
            Value::Str(_) => "string"@,
            Value::Array(_) => "array"@,
            Value::ObjMap(_) => "map"@,
            Value::Custom(_, name, _) => name,
        }
    }
}

/// The type identities of a sequence of values, in order.
pub open spec fn type_ids_of(args: Seq<Value>) -> Seq<u64> {
    Seq::new(args.len(), |i: int| args[i].type_id())
}

/// Position of the first entry at or after `from` whose key is `key`.
pub open spec fn find_key_from(entries: Seq<(Seq<char>, Value)>, key: Seq<char>, from: int) -> Option<int>
    decreases entries.len() - from,
{
    if from < 0 || from >= entries.len() {
        None
    } else if entries[from].0 == key {
        Some(from)
    } else {
        find_key_from(entries, key, from + 1)
    }
}

/// Position of the first entry whose key is `key`.
pub open spec fn find_key(entries: Seq<(Seq<char>, Value)>, key: Seq<char>) -> Option<int> {
    find_key_from(entries, key, 0)
}

/// The entries after `key` took the value `value`: the first entry of that key
/// is replaced, or, where there is none, a new entry is added at the end.
pub open spec fn with_entry(entries: Seq<(Seq<char>, Value)>, key: Seq<char>, value: Value) -> Seq<
    (Seq<char>, Value),
> {
    match find_key(entries, key) {
        Some(j) => entries.update(j, (key, value)),
        None => entries.push((key, value)),
    }
}

/// The model of an optional value.
pub open spec fn opt_view(o: Option<Dynamic>) -> Option<Value> {
    match o {
        Some(d) => Some(d@),
        None => None,
    }
}

/// What `find_key_from` returns is a position of the key, and no earlier position holds it.
pub proof fn lemma_find_key_from(entries: Seq<(Seq<char>, Value)>, key: Seq<char>, from: int)
    requires
        0 <= from,
    ensures
        match find_key_from(entries, key, from) {
            Some(i) => from <= i < entries.len() && entries[i].0 == key && forall|j: int|
                from <= j < i ==> entries[j].0 != key,
            None => forall|j: int| from <= j < entries.len() ==> entries[j].0 != key,
        },
    decreases entries.len() - from,
{
    if from < entries.len() && entries[from].0 != key {
        lemma_find_key_from(entries, key, from + 1);
    }
}

/// The values of a sequence are as many as its items.
pub broadcast proof fn lemma_values_len(s: Seq<Dynamic>)
    ensures
        #[trigger] values_of(s).len() == s.len(),
{
}

/// The values of a sequence are those of its items, in order.
pub broadcast proof fn lemma_values_index(s: Seq<Dynamic>, i: int)
    requires
        0 <= i < s.len(),
    ensures
        #[trigger] values_of(s)[i] == s[i]@,
{
}

/// The entries of a sequence are as many as its items.
pub broadcast proof fn lemma_entries_len(s: Seq<(String, Dynamic)>)
    ensures
        #[trigger] entries_of(s).len() == s.len(),
{
}

/// The entries of a sequence are those of its items, in order.
pub broadcast proof fn lemma_entries_index(s: Seq<(String, Dynamic)>, i: int)
    requires
        0 <= i < s.len(),
    ensures
        #[trigger] entries_of(s)[i] == (s[i].0@, s[i].1@),
{
}

/// The value of a collection is the collection of its items' values.
pub broadcast proof fn lemma_view_unfolds(d: Dynamic)
    ensures
        #[trigger] d@ == match d {
            Dynamic::Unit => Value::Unit,
            Dynamic::Bool(b) => Value::Bool(b),
            Dynamic::Int(i) => Value::Int(i),
            Dynamic::Char(c) => Value::Char(c),
            Dynamic::Str(s) => Value::Str(s@),
            Dynamic::Array(a) => Value::Array(values_of(a@)),
            Dynamic::ObjMap(m) => Value::ObjMap(entries_of(m@)),
            Dynamic::Custom(id, name, data) => Value::Custom(id, name@, data@),
        },
{
}

pub broadcast group group_value_views {
    lemma_view_unfolds,
    lemma_values_len,
    lemma_values_index,
    lemma_entries_len,
    lemma_entries_index,
}

/// Pushing a value onto a sequence pushes its view.
pub proof fn lemma_values_push(s: Seq<Dynamic>, d: Dynamic)
    ensures
        values_of(s.push(d)) == values_of(s).push(d@),
{
    assert(values_of(s.push(d)) =~= values_of(s).push(d@));
}

/// Replacing a value in a sequence replaces its view.
pub proof fn lemma_values_update(s: Seq<Dynamic>, i: int, d: Dynamic)
    requires
        0 <= i < s.len(),
    ensures
        values_of(s.update(i, d)) == values_of(s).update(i, d@),
{
    assert(values_of(s.update(i, d)) =~= values_of(s).update(i, d@));
}

/// Pushing an entry onto a sequence pushes its view.
pub proof fn lemma_entries_push(s: Seq<(String, Dynamic)>, e: (String, Dynamic))
    ensures
        entries_of(s.push(e)) == entries_of(s).push((e.0@, e.1@)),
{
    assert(entries_of(s.push(e)) =~= entries_of(s).push((e.0@, e.1@)));
}

/// Replacing an entry in a sequence replaces its view.
pub proof fn lemma_entries_update(s: Seq<(String, Dynamic)>, i: int, e: (String, Dynamic))
    requires
        0 <= i < s.len(),
    ensures
        entries_of(s.update(i, e)) == entries_of(s).update(i, (e.0@, e.1@)),
{
    assert(entries_of(s.update(i, e)) =~= entries_of(s).update(i, (e.0@, e.1@)));
}

impl Dynamic {
    /// The unit value.
    pub fn unit() -> (d: Dynamic)
        ensures
            d@ == Value::Unit,
    {
        Dynamic::Unit
    }

    /// A boolean value.
    pub fn from_bool(b: bool) -> (d: Dynamic)
        ensures
            d@ == Value::Bool(b),
    {
        Dynamic::Bool(b)
    }

    /// An integer value.
    pub fn from_int(i: i64) -> (d: Dynamic)
        ensures
            d@ == Value::Int(i),
    {
        Dynamic::Int(i)
    }

    /// A character value.
    pub fn from_char(c: char) -> (d: Dynamic)
        ensures
            d@ == Value::Char(c),
    {
        Dynamic::Char(c)
    }

    /// A string value that holds a copy of `s`.
    pub fn from_str(s: &str) -> (d: Dynamic)
        ensures
            d@ == Value::Str(s@),
    {
        Dynamic::Str(s.to_owned())
    }

    /// A string value.
    pub fn from_string(s: String) -> (d: Dynamic)
        ensures
            d@ == Value::Str(s@),
    {
        Dynamic::Str(s)
    }

    /// An array value.
    pub fn from_array(a: Vec<Dynamic>) -> (d: Dynamic)
        ensures
            d@ == Value::Array(values_of(a@)),
    {
        Dynamic::Array(a)
    }

    /// The stable identity of the value's type.
    pub fn type_id(&self) -> (id: u64)
        ensures
            id == self@.type_id(),
    {
        match self {
            Dynamic::Unit => TYPE_ID_UNIT,
            Dynamic::Bool(_) => TYPE_ID_BOOL,
            Dynamic::Int(_) => TYPE_ID_INT,
            Dynamic::Char(_) => TYPE_ID_CHAR,
            Dynamic::Str(_) => TYPE_ID_STRING,
            Dynamic::Array(_) => TYPE_ID_ARRAY,
            Dynamic::ObjMap(_) => TYPE_ID_MAP,
            Dynamic::Custom(id, _, _) => *id,
        }
    }

    /// The name of the value's type.
    pub fn type_label(&self) -> (name: &str)
        ensures
            name@ == self@.type_label(),
    {
        match self {
            Dynamic::Unit => "()",
            Dynamic::Bool(_) => "bool",
            Dynamic::Int(_) => "i64",
            Dynamic::Char(_) => "char",
            Dynamic::Str(_) => "string",
            Dynamic::Array(_) => "array",
            Dynamic::ObjMap(_) => "map",
            Dynamic::Custom(_, name, _) => name.as_str(),
        }
    }

    /// Is this the unit value?
    pub fn is_unit(&self) -> (b: bool)
        ensures
            b == (self@ is Unit),
    {
        match self {
            Dynamic::Unit => true,
            _ => false,
        }
    }

    /// Is this a boolean?
    pub fn is_bool(&self) -> (b: bool)
        ensures
            b == (self@ is Bool),
    {
        match self {
            Dynamic::Bool(_) => true,
            _ => false,
        }
    }

    /// Is this an integer?
    pub fn is_int(&self) -> (b: bool)
        ensures
            b == (self@ is Int),
    {
        match self {
            Dynamic::Int(_) => true,
            _ => false,
        }
    }

    /// Is this a character?
    pub fn is_char(&self) -> (b: bool)
        ensures
            b == (self@ is Char),
    {
        match self {
            Dynamic::Char(_) => true,
            _ => false,
        }
    }

    /// Is this a string?
    pub fn is_string(&self) -> (b: bool)
        ensures
            b == (self@ is Str),
    {
        match self {
            Dynamic::Str(_) => true,
            _ => false,
        }
    }

    /// Is this an array?
    pub fn is_array(&self) -> (b: bool)
        ensures
            b == (self@ is Array),
    {
        match self {
            Dynamic::Array(_) => true,
            _ => false,
        }
    }

    /// Is this an object map?
    pub fn is_map(&self) -> (b: bool)
        ensures
            b == (self@ is ObjMap),
    {
        match self {
            Dynamic::ObjMap(_) => true,
            _ => false,
        }
    }

    /// The integer that this value holds, or else the name of its type.
    pub fn as_int(&self) -> (r: Result<i64, &str>)
        ensures
            match r {
                Ok(i) => self@ == Value::Int(i),
                Err(name) => !(self@ is Int) && name@ == self@.type_label(),
            },
    {
        match self {
            Dynamic::Int(i) => Ok(*i),
            _ => Err(self.type_label()),
        }
    }

    /// The boolean that this value holds, or else the name of its type.
    pub fn as_bool(&self) -> (r: Result<bool, &str>)
        ensures
            match r {
                Ok(b) => self@ == Value::Bool(b),
                Err(name) => !(self@ is Bool) && name@ == self@.type_label(),
            },
    {
        match self {
            Dynamic::Bool(b) => Ok(*b),
            _ => Err(self.type_label()),
        }
    }

    /// The character that this value holds, or else the name of its type.
    pub fn as_char(&self) -> (r: Result<char, &str>)
        ensures
            match r {
                Ok(c) => self@ == Value::Char(c),
                Err(name) => !(self@ is Char) && name@ == self@.type_label(),
            },
    {
        match self {
            Dynamic::Char(c) => Ok(*c),
            _ => Err(self.type_label()),
        }
    }

    /// The string that this value holds, borrowed, or else the name of its type.
    pub fn as_str(&self) -> (r: Result<&str, &str>)
        ensures
            match r {
                Ok(s) => self@ == Value::Str(s@),
                Err(name) => !(self@ is Str) && name@ == self@.type_label(),
            },
    {
        match self {
            Dynamic::Str(s) => Ok(s.as_str()),
            _ => Err(self.type_label()),
        }
    }

    /// The string that this value holds, taken out of it, or else the name of its type.
    pub fn take_string(self) -> (r: Result<String, String>)
        ensures
            match r {
                Ok(s) => self@ == Value::Str(s@),
                Err(name) => !(self@ is Str) && name@ == self@.type_label(),
            },
    {
        match self {
            Dynamic::Str(s) => Ok(s),
            other => Err(other.type_label().to_owned()),
        }
    }
}

impl Clone for Dynamic {
    /// A deep copy: collections are duplicated with their contents.
    #[verifier::loop_isolation(false)]
    fn clone(&self) -> (r: Dynamic)
        ensures
            r@ == self@,
        decreases self,
    {
        match self {
            Dynamic::Unit => Dynamic::Unit,
            Dynamic::Bool(b) => Dynamic::Bool(*b),
            Dynamic::Int(i) => Dynamic::Int(*i),
            Dynamic::Char(c) => Dynamic::Char(*c),
            Dynamic::Str(s) => Dynamic::Str(s.clone()),
            Dynamic::Array(a) => {
                let mut items: Vec<Dynamic> = Vec::new();
                let mut i: usize = 0;
                while i < a.len()
                    invariant
                        i <= a.len(),
                        items.len() == i,
                        forall|j: int| 0 <= j < i ==> items[j]@ == a[j]@,
                    decreases a.len() - i,
                {
                    items.push(a[i].clone());
                    i += 1;
                }
                assert(values_of(items@) =~= values_of(a@));
                Dynamic::Array(items)
            },
            Dynamic::ObjMap(m) => {
                let mut entries: Vec<(String, Dynamic)> = Vec::new();
                let mut i: usize = 0;
                while i < m.len()
                    invariant
                        i <= m.len(),
                        entries.len() == i,
                        forall|j: int| 0 <= j < i ==> entries[j].0@ == m[j].0@ && entries[j].1@ == m[j].1@,
                    decreases m.len() - i,
                {
                    entries.push((m[i].0.clone(), m[i].1.clone()));
                    i += 1;
                }
                assert(entries_of(entries@) =~= entries_of(m@));
                Dynamic::ObjMap(entries)
            },
            Dynamic::Custom(id, name, data) => {
                let copy = data.clone();
                assert(copy@ =~= data@);
                Dynamic::Custom(*id, name.clone(), copy)
            },
        }
    }
}

impl Default for Dynamic {
    /// The unit value is the default.
    fn default() -> (d: Dynamic)
        ensures
            d@ == Value::Unit,
    {
        Dynamic::Unit
    }
}

/// Find the first entry of an object map that has the given key.
pub fn find_entry(m: &Vec<(String, Dynamic)>, key: &str) -> (r: Option<usize>)
    ensures
        match r {
            Some(j) => j < m.len() && find_key(entries_of(m@), key@) == Some(j as int),
            None => find_key(entries_of(m@), key@).is_none(),
        },
{
    broadcast use group_value_views;

    let mut i: usize = 0;
    while i < m.len()
        invariant
            i <= m.len(),
            find_key(entries_of(m@), key@) == find_key_from(entries_of(m@), key@, i as int),
        decreases m.len() - i,
    {
        if str_eq(m[i].0.as_str(), key) {
            return Some(i);
        }
        i += 1;
    }
    None
}

/// Give a key of an object map a value: the first entry of that key is
/// replaced, or, where there is none, a new entry is added at the end.
pub fn insert_entry(m: &mut Vec<(String, Dynamic)>, key: String, value: Dynamic)
    ensures
        entries_of(final(m)@) == with_entry(entries_of(old(m)@), key@, value@),
{
    match find_entry(m, key.as_str()) {
        Some(j) => {
            proof {
                lemma_entries_update(m@, j as int, (key, value));
            }
            m[j] = (key, value);
        },
        None => {
            proof {
                lemma_entries_push(m@, (key, value));
            }
            m.push((key, value));
        },
    }
}

/// A deep copy of a list of values.
pub fn clone_values(a: &Vec<Dynamic>) -> (r: Vec<Dynamic>)
    ensures
        values_of(r@) == values_of(a@),
{
    let mut items: Vec<Dynamic> = Vec::new();
    let mut i: usize = 0;
    while i < a.len()
        invariant
            i <= a.len(),
            items.len() == i,
            forall|j: int| 0 <= j < i ==> items[j]@ == a[j]@,
        decreases a.len() - i,
    {
        items.push(a[i].clone());
        i += 1;
    }
    assert(values_of(items@) =~= values_of(a@));
    items
}

} // verus!
