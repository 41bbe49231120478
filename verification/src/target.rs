//! Targets: handles on the places that a dot/index chain reaches.

use vstd::prelude::*;
use vstd::string::StrSliceExecFns;
use crate::any::{Dynamic, Value, lemma_values_update, lemma_entries_update};
use crate::result::{EvalAltResult, ErrorValue};
use crate::text::replace_char;
use crate::token::Position;

verus! {

broadcast use crate::any::group_value_views;

/// A short-lived handle on what one step of a dot/index chain reached inside
/// a base value. The base value itself is handed to each operation.
#[derive(Debug)]
pub enum Target {
    /// A place inside the base value: the position of an element of an array
    /// or of an entry of an object map.
    Place(usize),
    /// A freshly computed value that the chain owns. Writes to it are an error.
    Temp(Dynamic),
    /// One character of the base value, a string: its index and the
    /// character that was there when the handle was made.
    StringChar(usize, char),
}

/// The mathematical model of a `Target`.
pub enum TargetValue {
    Place(int),
    Temp(Value),
    StringChar(int, char),
}

impl View for Target {
    type V = TargetValue;

    open spec fn view(&self) -> TargetValue {
        match self {
            Target::Place(i) => TargetValue::Place(*i as int),
            Target::Temp(d) => TargetValue::Temp(d@),
            Target::StringChar(i, c) => TargetValue::StringChar(*i as int, *c),
        }
    }
}

impl TargetValue {
    /// Does the handle point into this base value?
    pub open spec fn fits(self, base: Value) -> bool {
        match self {
            TargetValue::Place(i) => match base {
                Value::Array(items) => 0 <= i < items.len(),
                Value::ObjMap(entries) => 0 <= i < entries.len(),
                _ => false,
            },
            TargetValue::Temp(_) => true,
            TargetValue::StringChar(i, _) => base matches Value::Str(s) && 0 <= i < s.len(),
        }
    }

    /// The value that the handle stands for: the content of the place, the
    /// temporary, or the character observed. Unit where the handle does not
    /// point into the base value.
    pub open spec fn content(self, base: Value) -> Value {
        match self {
            TargetValue::Place(i) => match base {
                Value::Array(items) => if 0 <= i < items.len() {
                    items[i]
                } else {
                    Value::Unit
                },
                Value::ObjMap(entries) => if 0 <= i < entries.len() {
                    entries[i].1
                } else {
                    Value::Unit
                },
                _ => Value::Unit,
            },
            TargetValue::Temp(v) => v,
            TargetValue::StringChar(_, c) => Value::Char(c),
        }
    }

    /// The base value after the place took the value `v`. Only a place
    /// changes the base value.
    pub open spec fn put(self, base: Value, v: Value) -> Value {
        match self {
            TargetValue::Place(i) => match base {
                Value::Array(items) => if 0 <= i < items.len() {
                    Value::Array(items.update(i, v))
                } else {
                    base
                },
                Value::ObjMap(entries) => if 0 <= i < entries.len() {
                    Value::ObjMap(entries.update(i, (entries[i].0, v)))
                } else {
                    base
                },
                _ => base,
            },
            _ => base,
        }
    }

    /// What a write of `new_val` through the handle does: the base value
    /// after it, or the error and the base value unchanged.
    ///
    /// A place takes the value. A character of a string takes a character and
    /// refuses anything else. A temporary, or a handle that does not point
    /// into the base value, refuses every write.
    pub open spec fn written(self, base: Value, new_val: Value, pos: Position) -> (
        Result<(), ErrorValue>,
        Value,
    ) {
        match self {
            TargetValue::Place(_) => if self.fits(base) {
                (Ok(()), self.put(base, new_val))
            } else {
                (Err(ErrorValue::ErrorAssignmentToUnknownLHS(pos)), base)
            },
            TargetValue::Temp(_) => (Err(ErrorValue::ErrorAssignmentToUnknownLHS(pos)), base),
            TargetValue::StringChar(i, _) => if self.fits(base) {
                match new_val {
                    Value::Char(c) => (Ok(()), Value::Str(base->Str_0.update(i, c))),
                    _ => (Err(ErrorValue::ErrorCharMismatch(pos)), base),
                }
            } else {
                (Err(ErrorValue::ErrorAssignmentToUnknownLHS(pos)), base)
            },
        }
    }
}

impl Target {
    /// Is the value that the handle stands for an object map?
    pub fn is_map(&self, base: &Dynamic) -> (b: bool)
        ensures
            b == (self@.content(base@) is ObjMap),
    {
        match self {
            Target::Place(i) => match base {
                Dynamic::Array(items) => *i < items.len() && items[*i].is_map(),
                Dynamic::ObjMap(entries) => *i < entries.len() && entries[*i].1.is_map(),
                _ => false,
            },
            Target::Temp(v) => v.is_map(),
            Target::StringChar(_, _) => false,
        }
    }

    /// Is the value that the handle stands for an array?
    pub fn is_array(&self, base: &Dynamic) -> (b: bool)
        ensures
            b == (self@.content(base@) is Array),
    {
        match self {
            Target::Place(i) => match base {
                Dynamic::Array(items) => *i < items.len() && items[*i].is_array(),
                Dynamic::ObjMap(entries) => *i < entries.len() && entries[*i].1.is_array(),
                _ => false,
            },
            Target::Temp(v) => v.is_array(),
            Target::StringChar(_, _) => false,
        }
    }

    /// Is the value that the handle stands for a string?
    pub fn is_string(&self, base: &Dynamic) -> (b: bool)
        ensures
            b == (self@.content(base@) is Str),
    {
        match self {
            Target::Place(i) => match base {
                Dynamic::Array(items) => *i < items.len() && items[*i].is_string(),
                Dynamic::ObjMap(entries) => *i < entries.len() && entries[*i].1.is_string(),
                _ => false,
            },
            Target::Temp(v) => v.is_string(),
            Target::StringChar(_, _) => false,
        }
    }

    /// The type identity of the value that the handle stands for.
    pub fn contents_type_id(&self, base: &Dynamic) -> (id: u64)
        ensures
            id == self@.content(base@).type_id(),
    {
        match self {
            Target::Place(i) => match base {
                Dynamic::Array(items) => if *i < items.len() {
                    items[*i].type_id()
                } else {
                    crate::any::TYPE_ID_UNIT
                },
                Dynamic::ObjMap(entries) => if *i < entries.len() {
                    entries[*i].1.type_id()
                } else {
                    crate::any::TYPE_ID_UNIT
                },
                _ => crate::any::TYPE_ID_UNIT,
            },
            Target::Temp(v) => v.type_id(),
            Target::StringChar(_, _) => crate::any::TYPE_ID_CHAR,
        }
    }

    /// A copy of the value that the handle stands for.
    pub fn clone_into_dynamic(&self, base: &Dynamic) -> (d: Dynamic)
        ensures
            d@ == self@.content(base@),
    {
        match self {
            Target::Place(i) => match base {
                Dynamic::Array(items) => if *i < items.len() {
                    items[*i].clone()
                } else {
                    Dynamic::Unit
                },
                Dynamic::ObjMap(entries) => if *i < entries.len() {
                    entries[*i].1.clone()
                } else {
                    Dynamic::Unit
                },
                _ => Dynamic::Unit,
            },
            Target::Temp(v) => v.clone(),
            Target::StringChar(_, c) => Dynamic::Char(*c),
        }
    }

    /// Write a value through the handle.
    ///
    /// A place takes the value. A character of a string is rewritten in the
    /// string, and only a character can be written there. A temporary refuses
    /// the write, as does a handle that does not point into the base value.
    pub fn set_value(self, base: &mut Dynamic, new_val: Dynamic, pos: Position) -> (r: Result<
        (),
        EvalAltResult,
    >)
        ensures
            match r {
                Ok(_) => self@.written(old(base)@, new_val@, pos).0 == Ok::<(), ErrorValue>(()),
                Err(e) => self@.written(old(base)@, new_val@, pos).0 == Err::<(), ErrorValue>(e@),
            },
            final(base)@ == self@.written(old(base)@, new_val@, pos).1,
    {
        match self {
            Target::Place(i) => match base {
                Dynamic::Array(items) => {
                    if i < items.len() {
                        proof {
                            lemma_values_update(items@, i as int, new_val);
                        }
                        items[i] = new_val;
                        Ok(())
                    } else {
                        Err(EvalAltResult::ErrorAssignmentToUnknownLHS(pos))
                    }
                },
                Dynamic::ObjMap(entries) => {
                    if i < entries.len() {
                        proof {
                            lemma_entries_update(entries@, i as int, (entries@[i as int].0, new_val));
                        }
                        entries[i].1 = new_val;
                        Ok(())
                    } else {
                        Err(EvalAltResult::ErrorAssignmentToUnknownLHS(pos))
                    }
                },
                _ => Err(EvalAltResult::ErrorAssignmentToUnknownLHS(pos)),
            },
            Target::Temp(_) => Err(EvalAltResult::ErrorAssignmentToUnknownLHS(pos)),
            Target::StringChar(i, _) => match base {
                Dynamic::Str(s) => {
                    if i < s.as_str().unicode_len() {
                        match new_val {
                            Dynamic::Char(c) => {
                                // See if changed - if so, update the string
                                if s.as_str().get_char(i) != c {
                                    *s = replace_char(s.as_str(), i, c);
                                } else {
                                    assert(s@.update(i as int, c) =~= s@);
                                }
                                Ok(())
                            },
                            _ => Err(EvalAltResult::ErrorCharMismatch(pos)),
                        }
                    } else {
                        Err(EvalAltResult::ErrorAssignmentToUnknownLHS(pos))
                    }
                },
                _ => Err(EvalAltResult::ErrorAssignmentToUnknownLHS(pos)),
            },
        }
    }
}

} // verus!
