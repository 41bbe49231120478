//! Interned strings: each distinct text is kept once and known by a small number.

use vstd::prelude::*;
use crate::text::str_eq;

verus! {

/// The number of the keyword `print`.
pub const KEYWORD_PRINT: u32 = 1;

/// The number of the keyword `debug`.
pub const KEYWORD_DEBUG: u32 = 2;

/// The number of the keyword `type_of`.
pub const KEYWORD_TYPE_OF: u32 = 3;

/// The number of the keyword `eval`.
pub const KEYWORD_EVAL: u32 = 4;

/// The number of the keyword `true`.
pub const KEYWORD_TRUE: u32 = 5;

/// The number of the keyword `false`.
pub const KEYWORD_FALSE: u32 = 6;

/// The number of the keyword `let`.
pub const KEYWORD_LET: u32 = 7;

/// The number of the keyword `const`.
pub const KEYWORD_CONST: u32 = 8;

/// The number of the keyword `if`.
pub const KEYWORD_IF: u32 = 9;

/// The number of the keyword `else`.
pub const KEYWORD_ELSE: u32 = 10;

/// The number of the keyword `while`.
pub const KEYWORD_WHILE: u32 = 11;

/// The number of the keyword `loop`.
pub const KEYWORD_LOOP: u32 = 12;

/// The number of the keyword `continue`.
pub const KEYWORD_CONTINUE: u32 = 13;

/// The number of the keyword `break`.
pub const KEYWORD_BREAK: u32 = 14;

/// The number of the keyword `return`.
pub const KEYWORD_RETURN: u32 = 15;

/// The number of the keyword `throw`.
pub const KEYWORD_THROW: u32 = 16;

/// The number of the keyword `for`.
pub const KEYWORD_FOR: u32 = 17;

/// The number of the keyword `in`.
pub const KEYWORD_IN: u32 = 18;

/// The number of the keyword `fn`.
pub const KEYWORD_FN: u32 = 19;

/// The number of the first string that is no keyword.
pub const FIRST_FREE: u32 = 20;

/// A handle on an interned string that takes part in the count of its users.
#[derive(Debug, PartialEq, Eq, Hash)]
pub struct Str {
    index: u32,
}

/// Like `Str` but outside the count of users: good for comparing, not for keeping.
#[derive(Debug, Clone, Copy, PartialEq, Eq, Structural, Hash)]
pub struct StaticStr {
    index: u32,
}

impl Str {
    /// The number by which the interner knows the string.
    pub closed spec fn spec_index(&self) -> u32 {
        self.index
    }

    /// The number by which the interner knows the string.
    #[verifier::when_used_as_spec(spec_index)]
    pub fn index(&self) -> (i: u32)
        ensures
            i == self.spec_index(),
    {
        self.index
    }

    /// The same string, outside the count of users.
    pub fn static_str(&self) -> (s: StaticStr)
        ensures
            s.spec_index() == self.spec_index(),
    {
        StaticStr { index: self.index }
    }
}

impl StaticStr {
    /// The number by which the interner knows the string.
    pub closed spec fn spec_index(&self) -> u32 {
        self.index
    }

    /// The number by which the interner knows the string.
    #[verifier::when_used_as_spec(spec_index)]
    pub fn index(&self) -> (i: u32)
        ensures
            i == self.spec_index(),
    {
        self.index
    }
}

/// One slot of the interner.
#[derive(Debug)]
pub enum Entry {
    /// A string and the number of its users.
    Occupied { refs: u32, data: String },
    /// A free slot.
    Vacant,
}

/// The text of the keyword with the given number.
pub open spec fn keyword_text(i: int) -> Seq<char> {
    if i == 1 {
        "print"@
    } else if i == 2 {
        "debug"@
    } else if i == 3 {
        "type_of"@
    } else if i == 4 {
        "eval"@
    } else if i == 5 {
        "true"@
    } else if i == 6 {
        "false"@
    } else if i == 7 {
        "let"@
    } else if i == 8 {
        "const"@
    } else if i == 9 {
        "if"@
    } else if i == 10 {
        "else"@
    } else if i == 11 {
        "while"@
    } else if i == 12 {
        "loop"@
    } else if i == 13 {
        "continue"@
    } else if i == 14 {
        "break"@
    } else if i == 15 {
        "return"@
    } else if i == 16 {
        "throw"@
    } else if i == 17 {
        "for"@
    } else if i == 18 {
        "in"@
    } else {
        "fn"@
    }
}

/// The keywords differ from one another.
pub proof fn lemma_keywords_differ(i: int, j: int)
    requires
        1 <= i < 20,
        1 <= j < 20,
        i != j,
    ensures
        keyword_text(i) != keyword_text(j),
{
    reveal_strlit("print");
    reveal_strlit("debug");
    reveal_strlit("type_of");
    reveal_strlit("eval");
    reveal_strlit("true");
    reveal_strlit("false");
    reveal_strlit("let");
    reveal_strlit("const");
    reveal_strlit("if");
    reveal_strlit("else");
    reveal_strlit("while");
    reveal_strlit("loop");
    reveal_strlit("continue");
    reveal_strlit("break");
    reveal_strlit("return");
    reveal_strlit("throw");
    reveal_strlit("for");
    reveal_strlit("in");
    reveal_strlit("fn");
    let a = keyword_text(i);
    let b = keyword_text(j);
    if a.len() == b.len() {
        assert(a[0] != b[0] || a[1] != b[1] || a[2] != b[2]);
    }
}

/// The store of interned strings. The slot with number zero is never used,
/// and the slots after it hold the keywords, which are never given up.
#[derive(Debug)]
pub struct Interner {
    strings: Vec<Entry>,
}

impl Interner {
    /// The text in every slot: nothing for a free slot.
    pub closed spec fn texts(&self) -> Seq<Option<Seq<char>>> {
        Seq::new(
            self.strings@.len(),
            |i: int|
                match self.strings@[i] {
                    Entry::Occupied { refs, data } => Some(data@),
                    Entry::Vacant => None,
                },
        )
    }

    /// The number of users of each slot: zero for a free slot.
    pub closed spec fn users(&self) -> Seq<nat> {
        Seq::new(
            self.strings@.len(),
            |i: int|
                match self.strings@[i] {
                    Entry::Occupied { refs, data } => refs as nat,
                    Entry::Vacant => 0,
                },
        )
    }

    /// The interner is in order: slot zero is free, the keywords are in their
    /// slots, every string in use has a user, and no text is kept twice.
    pub open spec fn wf(&self) -> bool {
        &&& self.texts().len() == self.users().len()
        &&& 20 <= self.texts().len() <= u32::MAX
        &&& self.texts()[0].is_none()
        &&& forall|i: int| 1 <= i < 20 ==> self.texts()[i] == Some(keyword_text(i))
        &&& forall|i: int| 0 <= i < self.texts().len() ==> (self.texts()[i].is_some() <==> self.users()[i] > 0)
        &&& forall|i: int, j: int|
            0 <= i < j < self.texts().len() && self.texts()[i].is_some() ==> self.texts()[i]
                != self.texts()[j]
    }

    /// Is the handle one of a string that this interner holds?
    pub open spec fn holds(&self, s: &Str) -> bool {
        0 <= s.spec_index() < self.texts().len() && self.texts()[s.spec_index() as int].is_some()
    }

    /// The text of a string that the interner holds.
    pub open spec fn text_of(&self, s: &Str) -> Seq<char> {
        self.texts()[s.spec_index() as int].unwrap()
    }

    /// Create an interner that holds the keywords, each with one user.
    pub fn new() -> (r: Interner)
        ensures
            r.wf(),
            r.texts().len() == 20,
            forall|i: int| 1 <= i < 20 ==> r.users()[i] == 1,
    {
        // First entry is a dummy entry to allow indexing without offsets
        // Then we have the list of hardcoded keywords
        let mut strings: Vec<Entry> = Vec::new();
        strings.push(Entry::Vacant);
        strings.push(Entry::Occupied { refs: 1, data: "print".to_owned() });
        strings.push(Entry::Occupied { refs: 1, data: "debug".to_owned() });
        strings.push(Entry::Occupied { refs: 1, data: "type_of".to_owned() });
        strings.push(Entry::Occupied { refs: 1, data: "eval".to_owned() });
        strings.push(Entry::Occupied { refs: 1, data: "true".to_owned() });
        strings.push(Entry::Occupied { refs: 1, data: "false".to_owned() });
        strings.push(Entry::Occupied { refs: 1, data: "let".to_owned() });
        strings.push(Entry::Occupied { refs: 1, data: "const".to_owned() });
        strings.push(Entry::Occupied { refs: 1, data: "if".to_owned() });
        strings.push(Entry::Occupied { refs: 1, data: "else".to_owned() });
        strings.push(Entry::Occupied { refs: 1, data: "while".to_owned() });
        strings.push(Entry::Occupied { refs: 1, data: "loop".to_owned() });
        strings.push(Entry::Occupied { refs: 1, data: "continue".to_owned() });
        strings.push(Entry::Occupied { refs: 1, data: "break".to_owned() });
        strings.push(Entry::Occupied { refs: 1, data: "return".to_owned() });
        strings.push(Entry::Occupied { refs: 1, data: "throw".to_owned() });
        strings.push(Entry::Occupied { refs: 1, data: "for".to_owned() });
        strings.push(Entry::Occupied { refs: 1, data: "in".to_owned() });
        strings.push(Entry::Occupied { refs: 1, data: "fn".to_owned() });
        let r = Interner { strings };
        proof {
            assert forall|i: int| 1 <= i < 20 implies r.texts()[i] == Some(keyword_text(i)) by {}
            assert forall|i: int, j: int|
                0 <= i < j < r.texts().len() && r.texts()[i].is_some() implies r.texts()[i]
                != r.texts()[j] by {
                lemma_keywords_differ(i, j);
            }
        }
        r
    }

    /// The number of slots, free ones included.
    pub fn len(&self) -> (n: usize)
        ensures
            n == self.texts().len(),
    {
        self.strings.len()
    }

    /// Find the slot that holds a text.
    fn find(&self, text: &str) -> (r: Option<usize>)
        ensures
            match r {
                Some(i) => i < self.texts().len() && self.texts()[i as int] == Some(text@),
                None => forall|i: int| 0 <= i < self.texts().len() ==> self.texts()[i] != Some(text@),
            },
    {
        let mut i: usize = 0;
        while i < self.strings.len()
            invariant
                i <= self.strings.len(),
                forall|k: int| 0 <= k < i ==> self.texts()[k] != Some(text@),
            decreases self.strings.len() - i,
        {
            match &self.strings[i] {
                Entry::Occupied { refs: _, data } => {
                    if str_eq(data.as_str(), text) {
                        return Some(i);
                    }
                },
                Entry::Vacant => {},
            }
            i += 1;
        }
        None
    }

    /// Find a free slot that is not the first.
    fn find_vacant(&self) -> (r: Option<usize>)
        ensures
            match r {
                Some(i) => 0 < i < self.texts().len() && self.texts()[i as int].is_none(),
                None => forall|i: int| 0 < i < self.texts().len() ==> self.texts()[i].is_some(),
            },
    {
        let mut i: usize = 1;
        while i < self.strings.len()
            invariant
                1 <= i,
                forall|k: int| 0 < k < i && k < self.texts().len() ==> self.texts()[k].is_some(),
            decreases self.strings.len() - i,
        {
            match &self.strings[i] {
                Entry::Occupied { refs: _, data: _ } => {},
                Entry::Vacant => {
                    return Some(i);
                },
            }
            i += 1;
        }
        None
    }

    /// Intern a string: a text that the interner holds gains a user and
    /// keeps its number; a new text goes to a free slot, or to a new one.
    /// Every other string keeps its number, its text and its users.
    pub fn intern_string(&mut self, string: String) -> (r: Str)
        requires
            old(self).wf(),
            old(self).texts().len() < u32::MAX,
        ensures
            final(self).wf(),
            final(self).holds(&r),
            final(self).text_of(&r) == string@,
            forall|i: int|
                0 <= i < old(self).texts().len() && old(self).texts()[i] == Some(string@)
                    ==> r.spec_index() == i,
            old(self).texts().len() <= final(self).texts().len() <= old(self).texts().len() + 1,
            forall|i: int|
                0 <= i < old(self).texts().len() && i != r.spec_index() ==> final(self).texts()[i]
                    == old(self).texts()[i] && final(self).users()[i] == old(self).users()[i],
            forall|i: int|
                0 <= i < old(self).texts().len() && old(self).texts()[i] == Some(string@)
                    ==> final(self).users()[i] == (if old(self).users()[i] < u32::MAX {
                    old(self).users()[i] + 1
                } else {
                    old(self).users()[i]
                }),
            (forall|i: int| 0 <= i < old(self).texts().len() ==> old(self).texts()[i] != Some(string@))
                ==> final(self).users()[r.spec_index() as int] == 1,
    {
        match self.find(string.as_str()) {
            Some(idx) => {
                let ghost before = *self;
                match &mut self.strings[idx] {
                    Entry::Occupied { refs, data: _ } => {
                        if *refs < u32::MAX {
                            *refs = *refs + 1;
                        }
                    },
                    Entry::Vacant => {},
                }
                proof {
                    assert(self.texts() =~= before.texts());
                    assert(self.users().len() == before.users().len());
                    assert forall|i: int| 0 <= i < self.users().len() && i != idx implies self.users()[i]
                        == before.users()[i] by {}
                    assert(self.users()[idx as int] > 0);
                }
                Str { index: idx as u32 }
            },
            None => {
                let entry = Entry::Occupied { refs: 1, data: string };
                match self.find_vacant() {
                    Some(vacancy) => {
                        let ghost before = *self;
                        self.strings[vacancy] = entry;
                        proof {
                            assert(self.texts() =~= before.texts().update(vacancy as int, Some(string@)));
                            assert(self.users() =~= before.users().update(vacancy as int, 1nat));
                        }
                        Str { index: vacancy as u32 }
                    },
                    None => {
                        let ghost before = *self;
                        let next = self.strings.len();
                        self.strings.push(entry);
                        proof {
                            assert(self.texts() =~= before.texts().push(Some(string@)));
                            assert(self.users() =~= before.users().push(1nat));
                        }
                        Str { index: next as u32 }
                    },
                }
            },
        }
    }

    /// Intern the text of a string slice.
    pub fn intern_str(&mut self, text: &str) -> (r: Str)
        requires
            old(self).wf(),
            old(self).texts().len() < u32::MAX,
        ensures
            final(self).wf(),
            final(self).holds(&r),
            final(self).text_of(&r) == text@,
            forall|i: int|
                0 <= i < old(self).texts().len() && old(self).texts()[i] == Some(text@)
                    ==> r.spec_index() == i,
    {
        self.intern_string(text.to_owned())
    }

    /// Is the handle one of a string that this interner holds?
    pub fn contains(&self, s: &Str) -> (b: bool)
        ensures
            b == self.holds(s),
    {
        let idx = s.index as usize;
        if idx < self.strings.len() {
            match &self.strings[idx] {
                Entry::Occupied { refs: _, data: _ } => true,
                Entry::Vacant => false,
            }
        } else {
            false
        }
    }

    /// A copy of the text of a string that the interner holds.
    pub fn get_string(&self, s: &Str) -> (r: String)
        requires
            self.holds(s),
        ensures
            r@ == self.text_of(s),
    {
        self.get_str(s).to_owned()
    }

    /// The text of a string that the interner holds.
    pub fn get_str(&self, s: &Str) -> (r: &str)
        requires
            self.holds(s),
        ensures
            r@ == self.text_of(s),
    {
        match &self.strings[s.index as usize] {
            Entry::Occupied { refs: _, data } => data.as_str(),
            Entry::Vacant => "",
        }
    }

    /// Another handle on the same string: the string gains a user.
    pub fn clone_str(&mut self, s: &Str) -> (r: Str)
        requires
            old(self).wf(),
            old(self).holds(s),
        ensures
            final(self).wf(),
            r.spec_index() == s.spec_index(),
            final(self).texts() == old(self).texts(),
            final(self).users() == old(self).users().update(
                s.spec_index() as int,
                if old(self).users()[s.spec_index() as int] < u32::MAX {
                    old(self).users()[s.spec_index() as int] + 1
                } else {
                    old(self).users()[s.spec_index() as int]
                },
            ),
    {
        let idx = s.index as usize;
        match &mut self.strings[idx] {
            Entry::Occupied { refs, data: _ } => {
                if *refs < u32::MAX {
                    *refs = *refs + 1;
                }
            },
            Entry::Vacant => {},
        }
        proof {
            assert(self.texts() =~= old(self).texts());
            assert(self.users() =~= old(self).users().update(
                s.spec_index() as int,
                if old(self).users()[s.spec_index() as int] < u32::MAX {
                    old(self).users()[s.spec_index() as int] + 1
                } else {
                    old(self).users()[s.spec_index() as int]
                },
            ));
        }
        Str { index: s.index }
    }

    /// Give a handle up: the string loses a user, and with its last user a
    /// string that is no keyword leaves the interner and frees its slot.
    pub fn release(&mut self, s: Str)
        requires
            old(self).wf(),
            old(self).holds(&s),
        ensures
            final(self).wf(),
            final(self).texts().len() == old(self).texts().len(),
            forall|i: int|
                0 <= i < old(self).texts().len() && i != s.spec_index() ==> final(self).texts()[i]
                    == old(self).texts()[i],
            old(self).users()[s.spec_index() as int] > 1 || s.spec_index() < 20
                ==> final(self).texts() == old(self).texts(),
            old(self).users()[s.spec_index() as int] == 1 && s.spec_index() >= 20
                ==> final(self).texts()[s.spec_index() as int].is_none(),
            old(self).users()[s.spec_index() as int] > 1 ==> final(self).users() == old(
                self,
            ).users().update(
                s.spec_index() as int,
                (old(self).users()[s.spec_index() as int] - 1) as nat,
            ),
            forall|i: int|
                0 <= i < old(self).texts().len() && i != s.spec_index() ==> final(self).users()[i]
                    == old(self).users()[i],
    {
        let idx = s.index as usize;
        let mut free = false;
        match &mut self.strings[idx] {
            Entry::Occupied { refs, data: _ } => {
                if *refs > 1 {
                    *refs = *refs - 1;
                } else if idx >= 20 {
                    free = true;
                }
            },
            Entry::Vacant => {},
        }
        let ghost mid = *self;
        proof {
            assert(mid.texts() =~= old(self).texts());
            assert(mid.users().len() == old(self).users().len());
            assert forall|i: int| 0 <= i < mid.users().len() && i != idx implies mid.users()[i] == old(
                self,
            ).users()[i] by {}
        }
        if free {
            self.strings[idx] = Entry::Vacant;
            proof {
                assert(self.texts() =~= mid.texts().update(idx as int, None));
                assert(self.users() =~= mid.users().update(idx as int, 0nat));
            }
        }
    }
}

} // verus!
