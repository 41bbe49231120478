//! The optimizer: constant folding and dead-code elimination on the syntax tree.

use vstd::prelude::*;
use vstd::string::StrSliceExecFns;
use crate::any::{Dynamic, Value, values_of, type_ids_of, lemma_values_push, opt_view};
use crate::engine::{
    Engine, FunctionsLib, Host, KEYWORD_DEBUG, KEYWORD_EVAL, KEYWORD_PRINT, KEYWORD_TYPE_OF,
};
use crate::model::{
    ExprValue, StmtValue, all_constant, all_pure, all_values_pure, constant_values,
    defs_of, exprs_of, items_of, stmts_of, lemma_exprs_push, lemma_items_push, lemma_literal_value,
    lemma_no_constant_values, lemma_not_all_constant, lemma_not_all_pure, lemma_not_all_values_pure,
    lemma_stmts_push,
};
use crate::parser::{AST, Expr, FnDef, ReturnType, Stmt, constant_for, map_dynamic_to_expr};
use crate::result::{EvalAltResult, ErrorValue};
use crate::rewrite::{
    ast_optimized, call_result, cleaned, declared, env_of, kept_len, known, known_below, live_len,
    mapped_block, named_from, names_of, names_view, optimized, optimized_def, optimized_defs, pass,
    picked, pruned, rewritten_call, rewritten_expr, rewritten_exprs, rewritten_items,
    rewritten_block, rewritten_stmt, same_variable, scope_consts, settled, tidied, unwrapped,
    without_pure,
};
use crate::scope::{EntryType, Scope};
use crate::text::{char_to_string, str_contains, str_eq};
use crate::token::Position;
use crate::utils::{calc_fn_spec, fn_hash};

verus! {

broadcast use {crate::any::group_value_views, crate::model::group_tree_views};

/// Level of optimization performed.
#[derive(Debug, Eq, PartialEq, Structural, Hash, Clone, Copy)]
pub enum OptimizationLevel {
    /// No optimization performed.
    Off,
    /// Only perform simple optimizations without evaluating functions.
    Simple,
    /// Full optimizations performed, including evaluating functions.
    /// Take care that this may cause side effects as it essentially assumes that all functions are pure.
    Full,
}

impl OptimizationLevel {
    /// Is no optimization performed?
    pub fn is_none(self) -> (b: bool)
        ensures
            b == (self == OptimizationLevel::Off),
    {
        self == OptimizationLevel::Off
    }

    /// Are full optimizations performed?
    pub fn is_full(self) -> (b: bool)
        ensures
            b == (self == OptimizationLevel::Full),
    {
        self == OptimizationLevel::Full
    }
}

/// Mutable state throughout an optimization pass.
pub struct State<'a, H: Host> {
    /// Has the AST been changed during this pass?
    pub changed: bool,
    /// Collection of constants to use for eager function evaluations.
    pub constants: Vec<(String, Expr)>,
    /// An `Engine` instance for eager function evaluation.
    pub engine: &'a Engine<H>,
    /// Name and number of parameters of each script-defined function.
    pub fn_lib: &'a Vec<(String, usize)>,
    /// Optimization level.
    pub optimization_level: OptimizationLevel,
}

impl<'a, H: Host> State<'a, H> {
    /// What the optimizer knows of the constants in reach.
    pub open spec fn env(&self) -> Seq<(Seq<char>, Option<Value>)> {
        env_of(self.constants@)
    }

    /// The functions that the script defines.
    pub open spec fn names(&self) -> Seq<(Seq<char>, usize)> {
        names_view(self.fn_lib@)
    }

    /// Are native functions called ahead of time?
    pub open spec fn full(&self) -> bool {
        self.optimization_level == OptimizationLevel::Full
    }

    /// What an expression is rewritten to in this state, and whether it is marked as changed.
    pub open spec fn rewritten(&self, e: ExprValue) -> (ExprValue, bool) {
        rewritten_expr(self.engine, self.names(), self.full(), self.env(), e)
    }

    /// What a statement is rewritten to in this state, and whether it is marked as changed.
    pub open spec fn rewritten_stmt(&self, s: StmtValue, preserve_result: bool) -> (StmtValue, bool) {
        rewritten_stmt(self.engine, self.names(), self.full(), self.env(), s, preserve_result)
    }

    /// What the first `n` expressions are rewritten to in this state, and
    /// whether any is marked as changed.
    pub open spec fn rewritten_exprs(&self, items: Seq<ExprValue>, n: int) -> (Seq<ExprValue>, bool) {
        rewritten_exprs(self.engine, self.names(), self.full(), self.env(), items, n)
    }

    /// What the first `n` entries are rewritten to in this state, and
    /// whether any is marked as changed.
    pub open spec fn rewritten_items(&self, items: Seq<(Seq<char>, ExprValue, Position)>, n: int) -> (
        Seq<(Seq<char>, ExprValue, Position)>,
        bool,
    ) {
        rewritten_items(self.engine, self.names(), self.full(), self.env(), items, n)
    }

    /// What the first `n` statements of a block are rewritten to in this
    /// state, the constants known after them, and whether any is marked as changed.
    pub open spec fn mapped_block(&self, stmts: Seq<StmtValue>, preserve_result: bool, n: int) -> (
        Seq<StmtValue>,
        Seq<(Seq<char>, Option<Value>)>,
        bool,
    ) {
        mapped_block(self.engine, self.names(), self.full(), self.env(), stmts, preserve_result, n)
    }

    /// What the first `n` statements of a script are rewritten to in one
    /// pass from this state, the constants known after them, and whether any
    /// is marked as changed.
    pub open spec fn pass(&self, stmts: Seq<StmtValue>, n: int) -> (
        Seq<StmtValue>,
        Seq<(Seq<char>, Option<Value>)>,
        bool,
    ) {
        pass(self.engine, self.names(), self.full(), self.env(), stmts, n)
    }

    /// Does `other` differ from this state in nothing but the dirty flag,
    /// which is set in `other` where it is set here or `dirty` holds?
    pub open spec fn marked(&self, other: &Self, dirty: bool) -> bool {
        &&& other.env() == self.env()
        &&& other.same_setup(self)
        &&& other.changed == (self.changed || dirty)
    }

    /// Has `other` the engine, the functions and the level of this state?
    pub open spec fn same_setup(&self, other: &Self) -> bool {
        &&& other.engine == self.engine
        &&& other.fn_lib == self.fn_lib
        &&& other.optimization_level == self.optimization_level
    }

    /// Create a new State.
    pub fn new(engine: &'a Engine<H>, fn_lib: &'a Vec<(String, usize)>, level: OptimizationLevel) -> (s: Self)
        ensures
            !s.changed,
            s.constants@.len() == 0,
            s.engine == engine,
            s.fn_lib == fn_lib,
            s.optimization_level == level,
    {
        State { changed: false, constants: Vec::new(), engine, fn_lib, optimization_level: level }
    }

    /// Reset the state from dirty to clean.
    pub fn reset(&mut self)
        ensures
            !final(self).changed,
            final(self).constants == old(self).constants,
            old(self).same_setup(final(self)),
    {
        self.changed = false;
    }

    /// Set the AST state to be dirty (i.e. changed).
    pub fn set_dirty(&mut self)
        ensures
            final(self).constants == old(self).constants,
            old(self).marked(final(self), true),
    {
        self.changed = true;
    }

    /// Is the AST dirty (i.e. changed)?
    pub fn is_dirty(&self) -> (b: bool)
        ensures
            b == self.changed,
    {
        self.changed
    }

    /// Does a constant exist?
    pub fn contains_constant(&self, name: &str) -> (b: bool)
        ensures
            b == known(self.env(), name@).is_some(),
    {
        self.find_constant(name).is_some()
    }

    /// Prune the list of constants back to a specified size.
    pub fn restore_constants(&mut self, len: usize)
        ensures
            len <= old(self).env().len() ==> final(self).env() == old(self).env().subrange(
                0,
                len as int,
            ),
            len > old(self).env().len() ==> final(self).env() == old(self).env(),
            final(self).changed == old(self).changed,
            old(self).same_setup(final(self)),
    {
        self.constants.truncate(len);
        proof {
            if len <= old(self).constants@.len() {
                assert(self.env() =~= old(self).env().subrange(0, len as int));
            }
        }
    }

    /// Add a new constant to the list.
    pub fn push_constant(&mut self, name: String, value: Expr)
        ensures
            final(self).env() == old(self).env().push((name@, value@.constant_value())),
            final(self).changed == old(self).changed,
            old(self).same_setup(final(self)),
    {
        self.constants.push((name, value));
        proof {
            assert(self.env() =~= old(self).env().push((name@, value@.constant_value())));
        }
    }

    /// Look up a constant from the list: the one pushed last under the name.
    pub fn find_constant(&self, name: &str) -> (r: Option<&Expr>)
        ensures
            match r {
                Some(e) => known(self.env(), name@) matches Some(k) && e@.constant_value()
                    == self.env()[k].1,
                None => known(self.env(), name@).is_none(),
            },
    {
        let mut i: usize = self.constants.len();
        while i > 0
            invariant
                i <= self.constants.len(),
                known(self.env(), name@) == known_below(self.env(), name@, i as int),
            decreases i,
        {
            if str_eq(self.constants[i - 1].0.as_str(), name) {
                return Some(&self.constants[i - 1].1);
            }
            i -= 1;
        }
        None
    }
}

/// Call a registered function: look for a native function of this name
/// and these argument types, in the engine's own table and then in the
/// packages, and run it. Nothing is run where none is found.
pub fn call_fn<H: Host>(engine: &Engine<H>, fn_name: &str, args: &mut Vec<Dynamic>, pos: Position) -> (r: Result<
    Option<Dynamic>,
    EvalAltResult,
>)
    ensures
        match engine.find_native(fn_hash(fn_name@, type_ids_of(values_of(old(args)@)))) {
            Some(id) => (match r {
                Ok(Some(v)) => Ok::<Value, ErrorValue>(v@) == engine.host.native_outcome(
                    id,
                    values_of(old(args)@),
                    pos,
                ).0,
                Ok(None) => false,
                Err(e) => Err::<Value, ErrorValue>(e@) == engine.host.native_outcome(
                    id,
                    values_of(old(args)@),
                    pos,
                ).0,
            }) && values_of(final(args)@) == engine.host.native_outcome(
                id,
                values_of(old(args)@),
                pos,
            ).1,
            None => r matches Ok(None) && *final(args) == *old(args),
        },
{
    // Search built-in's and external functions
    let hash = calc_fn_spec(fn_name, args);
    match engine.lookup_native(hash) {
        Some(id) => match engine.host.call_native(id, args, pos) {
            Ok(v) => Ok(Some(v)),
            Err(e) => Err(e),
        },
        None => Ok(None),
    }
}

/// Take a statement out of a list and leave a no-op in its place.
fn take_stmt(v: &mut Vec<Stmt>, i: usize) -> (r: Stmt)
    requires
        i < old(v).len(),
    ensures
        r == old(v)@[i as int],
        final(v)@ == old(v)@.update(i as int, Stmt::Noop(Position::spec_none())),
{
    let mut taken = Stmt::Noop(Position::none());
    core::mem::swap(&mut v[i], &mut taken);
    taken
}

/// Take an expression out of a list and leave unit in its place.
fn take_expr(v: &mut Vec<Expr>, i: usize) -> (r: Expr)
    requires
        i < old(v).len(),
    ensures
        r == old(v)@[i as int],
        final(v)@ == old(v)@.update(i as int, Expr::Unit(Position::spec_none())),
{
    let mut taken = Expr::Unit(Position::none());
    core::mem::swap(&mut v[i], &mut taken);
    taken
}

/// Drop the pure statements of a list, but for the last statement where
/// `keep_last` is set. The statements that stay keep their order.
pub fn drop_pure(stmts: Vec<Stmt>, keep_last: bool) -> (r: Vec<Stmt>)
    ensures
        stmts_of(r@) == pruned(stmts_of(stmts@), keep_last),
{
    let mut stmts = stmts;
    let ghost all = stmts@;
    let n = stmts.len();
    let checked = if keep_last && n > 0 {
        n - 1
    } else {
        n
    };
    let mut out: Vec<Stmt> = Vec::new();
    let mut i: usize = 0;
    assert(stmts_of(out@) =~= Seq::<StmtValue>::empty());
    while i < checked
        invariant
            i <= checked <= n,
            n == all.len(),
            stmts@.len() == n,
            forall|k: int| i <= k < n ==> stmts@[k] == all[k],
            stmts_of(out@) == without_pure(stmts_of(all), i as int),
        decreases checked - i,
    {
        let s = take_stmt(&mut stmts, i);
        if !s.is_pure() {
            proof {
                lemma_stmts_push(out@, s);
            }
            out.push(s);
        }
        i += 1;
    }
    if checked < n {
        let s = take_stmt(&mut stmts, checked);
        proof {
            lemma_stmts_push(out@, s);
        }
        out.push(s);
    }
    out
}

/// Drop the `let` statements at the end of a list that have no value or a
/// pure one, and say whether any was dropped.
pub fn strip_lets(stmts: Vec<Stmt>) -> (r: (Vec<Stmt>, bool))
    ensures
        stmts_of(r.0@) == stmts_of(stmts@).subrange(0, kept_len(stmts_of(stmts@), stmts@.len() as int)),
        r.1 == (kept_len(stmts_of(stmts@), stmts@.len() as int) < stmts@.len()),
        0 <= kept_len(stmts_of(stmts@), stmts@.len() as int) <= stmts@.len(),
{
    let ghost all = stmts@;
    let mut list = stmts;
    let mut removed = false;
    loop
        invariant
            list@.len() <= all.len(),
            list@ == all.subrange(0, list@.len() as int),
            kept_len(stmts_of(all), all.len() as int) == kept_len(stmts_of(all), list@.len() as int),
            removed == (list@.len() < all.len()),
        ensures
            kept_len(stmts_of(all), all.len() as int) == list@.len(),
        decreases list@.len(),
    {
        let n = list.len();
        if n == 0 {
            break ;
        }
        assert(stmts_of(all)[n - 1] == list@[n - 1]@);
        let idle = match &list[n - 1] {
            Stmt::Let(_, None, _) => true,
            Stmt::Let(_, Some(val_expr), _) => val_expr.is_pure(),
            _ => false,
        };
        if !idle {
            break ;
        }
        list.pop();
        removed = true;
        assert(list@ =~= all.subrange(0, list@.len() as int));
    }
    assert(stmts_of(list@) =~= stmts_of(all).subrange(0, list@.len() as int));
    (list, removed)
}

/// Drop everything that follows the first `return`, `throw` or `break` of a list.
pub fn cut_dead(stmts: Vec<Stmt>) -> (r: Vec<Stmt>)
    ensures
        stmts_of(r@) == stmts_of(stmts@).subrange(0, live_len(stmts_of(stmts@), 0)),
        0 <= live_len(stmts_of(stmts@), 0) <= stmts@.len(),
{
    let mut list = stmts;
    let mut i: usize = 0;
    while i < list.len()
        invariant
            i <= list.len(),
            list@ == stmts@,
            live_len(stmts_of(stmts@), 0) == live_len(stmts_of(stmts@), i as int),
        decreases list.len() - i,
    {
        assert(stmts_of(stmts@)[i as int] == list@[i as int]@);
        let ends = match &list[i] {
            Stmt::ReturnWithVal(_, _, _) => true,
            Stmt::Break(_) => true,
            _ => false,
        };
        if ends {
            list.truncate(i + 1);
            assert(stmts_of(list@) =~= stmts_of(stmts@).subrange(0, i + 1));
            return list;
        }
        i += 1;
    }
    assert(stmts_of(list@) =~= stmts_of(stmts@).subrange(0, stmts@.len() as int));
    list
}

/// The constants known after some statements of a block begin with those known before it.
pub proof fn lemma_mapped_block_extends<H: Host>(
    engine: &Engine<H>,
    names: Seq<(Seq<char>, usize)>,
    full: bool,
    consts: Seq<(Seq<char>, Option<Value>)>,
    stmts: Seq<StmtValue>,
    preserve_result: bool,
    n: int,
)
    ensures
        mapped_block(engine, names, full, consts, stmts, preserve_result, n).1.len() >= consts.len(),
        mapped_block(engine, names, full, consts, stmts, preserve_result, n).1.subrange(
            0,
            consts.len() as int,
        ) == consts,
        n <= stmts.len() ==> mapped_block(engine, names, full, consts, stmts, preserve_result, n).0.len()
            == if n < 0 {
            0
        } else {
            n
        },
    decreases n,
{
    if n > 0 && n <= stmts.len() {
        lemma_mapped_block_extends(engine, names, full, consts, stmts, preserve_result, n - 1);
        assert(mapped_block(engine, names, full, consts, stmts, preserve_result, n).1.subrange(
            0,
            consts.len() as int,
        ) =~= mapped_block(engine, names, full, consts, stmts, preserve_result, n - 1).1.subrange(
            0,
            consts.len() as int,
        ));
    } else {
        assert(consts.subrange(0, consts.len() as int) =~= consts);
    }
}

/// The constants known after some statements of a script begin with those known before it.
pub proof fn lemma_pass_extends<H: Host>(
    engine: &Engine<H>,
    names: Seq<(Seq<char>, usize)>,
    full: bool,
    consts: Seq<(Seq<char>, Option<Value>)>,
    stmts: Seq<StmtValue>,
    n: int,
)
    ensures
        pass(engine, names, full, consts, stmts, n).1.len() >= consts.len(),
        pass(engine, names, full, consts, stmts, n).1.subrange(0, consts.len() as int) == consts,
    decreases n,
{
    if n > 0 && n <= stmts.len() {
        lemma_pass_extends(engine, names, full, consts, stmts, n - 1);
        assert(pass(engine, names, full, consts, stmts, n).1.subrange(0, consts.len() as int) =~= pass(
            engine,
            names,
            full,
            consts,
            stmts,
            n - 1,
        ).1.subrange(0, consts.len() as int));
    } else {
        assert(consts.subrange(0, consts.len() as int) =~= consts);
    }
}

/// Are all the expressions pure?
fn exprs_pure(items: &Vec<Expr>) -> (b: bool)
    ensures
        b == all_pure(exprs_of(items@), items@.len() as int),
{
    let mut i: usize = 0;
    while i < items.len()
        invariant
            i <= items.len(),
            all_pure(exprs_of(items@), i as int),
        decreases items.len() - i,
    {
        if !items[i].is_pure() {
            proof {
                lemma_not_all_pure(exprs_of(items@), i as int, items@.len() as int);
            }
            return false;
        }
        i += 1;
    }
    true
}

/// Are the expressions of all the entries pure?
fn values_pure(items: &Vec<(String, Expr, Position)>) -> (b: bool)
    ensures
        b == all_values_pure(items_of(items@), items@.len() as int),
{
    let mut i: usize = 0;
    while i < items.len()
        invariant
            i <= items.len(),
            all_values_pure(items_of(items@), i as int),
        decreases items.len() - i,
    {
        if !items[i].1.is_pure() {
            proof {
                lemma_not_all_values_pure(items_of(items@), i as int, items@.len() as int);
            }
            return false;
        }
        i += 1;
    }
    true
}

/// Are all the expressions constants?
fn exprs_constant(items: &Vec<Expr>) -> (b: bool)
    ensures
        b == all_constant(exprs_of(items@), items@.len() as int),
{
    let mut i: usize = 0;
    while i < items.len()
        invariant
            i <= items.len(),
            all_constant(exprs_of(items@), i as int),
        decreases items.len() - i,
    {
        if !items[i].is_constant() {
            proof {
                lemma_not_all_constant(exprs_of(items@), i as int, items@.len() as int);
            }
            return false;
        }
        i += 1;
    }
    true
}

/// The values of constant expressions, if each of them has one.
fn values_of_constants(items: &Vec<Expr>) -> (r: Option<Vec<Dynamic>>)
    ensures
        match r {
            Some(vs) => constant_values(exprs_of(items@), items@.len() as int) == Some(values_of(vs@)),
            None => constant_values(exprs_of(items@), items@.len() as int).is_none(),
        },
{
    let mut out: Vec<Dynamic> = Vec::new();
    let mut i: usize = 0;
    assert(values_of(out@) =~= Seq::<Value>::empty());
    while i < items.len()
        invariant
            i <= items.len(),
            constant_values(exprs_of(items@), i as int) == Some(values_of(out@)),
        decreases items.len() - i,
    {
        match items[i].get_constant_value() {
            Some(v) => {
                proof {
                    lemma_values_push(out@, v);
                }
                out.push(v);
            },
            None => {
                proof {
                    lemma_no_constant_values(exprs_of(items@), i as int, items@.len() as int);
                }
                return None;
            },
        }
        i += 1;
    }
    Some(out)
}

/// Find the first entry that has the given key.
fn find_named(items: &Vec<(String, Expr, Position)>, name: &str) -> (r: Option<usize>)
    ensures
        match r {
            Some(k) => k < items@.len() && named_from(items_of(items@), name@, 0) == Some(k as int),
            None => named_from(items_of(items@), name@, 0).is_none(),
        },
{
    let mut i: usize = 0;
    while i < items.len()
        invariant
            i <= items.len(),
            named_from(items_of(items@), name@, 0) == named_from(items_of(items@), name@, i as int),
        decreases items.len() - i,
    {
        if str_eq(items[i].0.as_str(), name) {
            return Some(i);
        }
        i += 1;
    }
    None
}

/// Does the script define a function of this name and number of parameters?
fn is_declared(fn_lib: &Vec<(String, usize)>, name: &str, n: usize) -> (b: bool)
    ensures
        b == declared(names_view(fn_lib@), name@, n as nat, 0),
{
    let mut i: usize = 0;
    while i < fn_lib.len()
        invariant
            i <= fn_lib.len(),
            declared(names_view(fn_lib@), name@, n as nat, 0) == declared(
                names_view(fn_lib@),
                name@,
                n as nat,
                i as int,
            ),
        decreases fn_lib.len() - i,
    {
        if str_eq(fn_lib[i].0.as_str(), name) && fn_lib[i].1 == n {
            return true;
        }
        i += 1;
    }
    false
}

/// Pick the expression of the first entry that has the given key and move
/// it to the given position; unit where no entry has the key.
fn pick_named(items: Vec<(String, Expr, Position)>, name: &str, pos: Position) -> (r: Expr)
    ensures
        r@ == picked(items_of(items@), name@, pos),
{
    let mut list = items;
    match find_named(&list, name) {
        Some(k) => {
            assert(items_of(items@)[k as int].1 == items@[k as int].1@);
            let entry = list.swap_remove(k);
            entry.1.set_position(pos)
        },
        None => Expr::Unit(pos),
    }
}

/// Optimize each expression of a list.
fn optimize_exprs<'a, H: Host>(items: Vec<Expr>, state: &mut State<'a, H>) -> (r: Vec<Expr>)
    ensures
        exprs_of(r@) == old(state).rewritten_exprs(exprs_of(items@), items@.len() as int).0,
        old(state).marked(
            final(state),
            old(state).rewritten_exprs(exprs_of(items@), items@.len() as int).1,
        ),
    decreases items, 0int,
{
    let mut list = items;
    let mut out: Vec<Expr> = Vec::new();
    let mut i: usize = 0;
    assert(exprs_of(out@) =~= Seq::<ExprValue>::empty());
    while i < list.len()
        invariant
            i <= list@.len(),
            list@.len() == items@.len(),
            forall|k: int| i <= k < list@.len() ==> list@[k] == items@[k],
            exprs_of(out@) == old(state).rewritten_exprs(exprs_of(items@), i as int).0,
            old(state).marked(state, old(state).rewritten_exprs(exprs_of(items@), i as int).1),
        decreases list@.len() - i,
    {
        let e = take_expr(&mut list, i);
        assert(exprs_of(items@)[i as int] == e@);
        let r = optimize_expr(e, state);
        proof {
            lemma_exprs_push(out@, r);
        }
        out.push(r);
        i += 1;
    }
    out
}

/// Optimize the expression of each entry of an object map literal.
fn optimize_items<'a, H: Host>(items: Vec<(String, Expr, Position)>, state: &mut State<'a, H>) -> (r: Vec<
    (String, Expr, Position),
>)
    ensures
        items_of(r@) == old(state).rewritten_items(items_of(items@), items@.len() as int).0,
        old(state).marked(
            final(state),
            old(state).rewritten_items(items_of(items@), items@.len() as int).1,
        ),
    decreases items, 0int,
{
    let mut list = items;
    let mut out: Vec<(String, Expr, Position)> = Vec::new();
    let n = list.len();
    // The entries are taken from the back, so the list is built in reverse and turned round.
    let mut rev: Vec<(String, Expr, Position)> = Vec::new();
    while list.len() > 0
        invariant
            list@.len() + rev@.len() == n,
            n == items@.len(),
            forall|k: int| 0 <= k < list@.len() ==> list@[k] == items@[k],
            forall|k: int| 0 <= k < rev@.len() ==> rev@[k] == items@[n - 1 - k],
        decreases list@.len(),
    {
        let e = list.pop().unwrap();
        rev.push(e);
    }
    let mut i: usize = 0;
    assert(items_of(out@) =~= Seq::<(Seq<char>, ExprValue, Position)>::empty());
    while i < n
        invariant
            i <= n,
            n == items@.len(),
            rev@.len() == n - i,
            forall|k: int| 0 <= k < rev@.len() ==> rev@[k] == items@[n - 1 - k],
            items_of(out@) == old(state).rewritten_items(items_of(items@), i as int).0,
            old(state).marked(state, old(state).rewritten_items(items_of(items@), i as int).1),
        decreases n - i,
    {
        let (key, expr, pos) = rev.pop().unwrap();
        assert(items_of(items@)[i as int] == (key@, expr@, pos));
        let r = optimize_expr(expr, state);
        proof {
            lemma_items_push(out@, (key, r, pos));
        }
        out.push((key, r, pos));
        i += 1;
    }
    out
}

/// Optimize the arguments of a function call.
fn optimize_call_args<'a, H: Host>(expr: Expr, state: &mut State<'a, H>) -> (r: Expr)
    requires
        expr is FnCall,
    ensures
        r@ == rewritten_call(
            old(state).engine,
            old(state).names(),
            old(state).full(),
            old(state).env(),
            expr@,
        ).0,
        old(state).marked(
            final(state),
            rewritten_call(
                old(state).engine,
                old(state).names(),
                old(state).full(),
                old(state).env(),
                expr@,
            ).1,
        ),
    decreases expr, 0int,
{
    match expr {
        Expr::FnCall(id, args, def_value, pos) => {
            let args2 = optimize_exprs(args, state);
            Expr::FnCall(id, args2, def_value, pos)
        },
        other => other,
    }
}

/// Optimize an expression.
pub fn optimize_expr<'a, H: Host>(expr: Expr, state: &mut State<'a, H>) -> (r: Expr)
    ensures
        r@ == old(state).rewritten(expr@).0,
        old(state).marked(final(state), old(state).rewritten(expr@).1),
    decreases expr, 2int,
{
    match expr {
        // ( stmt )
        Expr::Stmt(_, _) => optimize_stmt_expr(expr, state),
        // id = expr
        Expr::Assignment(_, _, _) => optimize_assignment(expr, state),
        // lhs.rhs
        Expr::Dot(_, _, _) => optimize_dot(expr, state),
        // lhs[rhs]
        Expr::Index(_, _, _) => optimize_index(expr, state),
        // [ items .. ]
        Expr::Array(items, pos) => Expr::Array(optimize_exprs(items, state), pos),
        // #{ items .. }
        Expr::ObjMap(items, pos) => Expr::ObjMap(optimize_items(items, state), pos),
        // lhs in rhs
        Expr::In(_, _, _) => optimize_in(expr, state),
        // lhs && rhs
        Expr::And(_, _, _) => optimize_and(expr, state),
        // lhs || rhs
        Expr::Or(_, _, _) => optimize_or(expr, state),
        Expr::FnCall(_, _, _, _) => optimize_fn_call(expr, state),
        // constant-name
        Expr::Variable(name, index, pos) => {
            let found = match state.find_constant(name.as_str()) {
                Some(c) => match c.get_constant_value() {
                    Some(v) => map_dynamic_to_expr(v, pos),
                    None => None,
                },
                None => None,
            };
            match found {
                Some(e) => {
                    state.set_dirty();
                    // Replace constant with value
                    e
                },
                None => Expr::Variable(name, index, pos),
            }
        },
        // All other expressions - skip
        other => other,
    }
}

/// Optimize a statement that stands as an expression.
fn optimize_stmt_expr<'a, H: Host>(expr: Expr, state: &mut State<'a, H>) -> (r: Expr)
    requires
        expr is Stmt,
    ensures
        r@ == old(state).rewritten(expr@).0,
        old(state).marked(final(state), old(state).rewritten(expr@).1),
    decreases expr, 1int,
{
    match expr {
        Expr::Stmt(stmt, pos) => {
            assert(expr@ == ExprValue::Stmt(Box::new(stmt@), pos));
            match optimize_stmt(*stmt, state, true) {
                // ( Noop ) -> ()
                Stmt::Noop(_) => {
                    state.set_dirty();
                    Expr::Unit(pos)
                },
                // ( expr ) -> expr
                Stmt::Expr(e) => {
                    state.set_dirty();
                    *e
                },
                // ( stmt )
                s => Expr::Stmt(Box::new(s), pos),
            }
        },
        other => other,
    }
}

/// Are these two the same variable: of one name, found at one offset?
fn is_same_variable(a: &Expr, b: &Expr) -> (same: bool)
    ensures
        same == same_variable(a@, b@),
{
    match (a, b) {
        (Expr::Variable(var, index, _), Expr::Variable(var2, index2, _)) => {
            let same_index = match (index, index2) {
                (Some(a), Some(b)) => *a == *b,
                (None, None) => true,
                _ => false,
            };
            str_eq(var.as_str(), var2.as_str()) && same_index
        },
        _ => false,
    }
}

/// Optimize an assignment.
fn optimize_assignment<'a, H: Host>(expr: Expr, state: &mut State<'a, H>) -> (r: Expr)
    requires
        expr is Assignment,
    ensures
        r@ == old(state).rewritten(expr@).0,
        old(state).marked(final(state), old(state).rewritten(expr@).1),
    decreases expr, 1int,
{
    match expr {
        Expr::Assignment(id, rhs, pos) => {
            assert(expr@ == ExprValue::Assignment(Box::new(id@), Box::new(rhs@), pos));
            match *rhs {
                //id = id2 = expr2
                Expr::Assignment(id2, expr2, pos2) => {
                    assert(rhs@ == ExprValue::Assignment(Box::new(id2@), Box::new(expr2@), pos2));
                    if is_same_variable(&*id, &*id2) {
                        // Assignment to the same variable - fold
                        state.set_dirty();
                        let var = id.set_position(pos);
                        Expr::Assignment(Box::new(var), Box::new(optimize_expr(*expr2, state)), pos)
                    } else {
                        // id1 = id2 = expr2
                        let inner = Expr::Assignment(id2, Box::new(optimize_expr(*expr2, state)), pos2);
                        assert(inner@ is Assignment);
                        Expr::Assignment(id, Box::new(inner), pos)
                    }
                },
                // id = expr
                other => Expr::Assignment(id, Box::new(optimize_expr(other, state)), pos),
            }
        },
        other => other,
    }
}

/// Optimize a dot expression.
fn optimize_dot<'a, H: Host>(expr: Expr, state: &mut State<'a, H>) -> (r: Expr)
    requires
        expr is Dot,
    ensures
        r@ == old(state).rewritten(expr@).0,
        old(state).marked(final(state), old(state).rewritten(expr@).1),
    decreases expr, 1int,
{
    match expr {
        Expr::Dot(lhs, rhs, pos) => {
            assert(expr@ == ExprValue::Dot(Box::new(lhs@), Box::new(rhs@), pos));
            let promoted = match (&*lhs, &*rhs) {
                // map.string
                (Expr::ObjMap(items, _), Expr::Property(_, _)) => values_pure(items),
                _ => false,
            };
            if promoted {
                // Map literal where everything is pure - promote the indexed item.
                // All other items can be thrown away.
                state.set_dirty();
                match (*lhs, *rhs) {
                    (Expr::ObjMap(items, pos2), Expr::Property(s, _)) => pick_named(items, s.as_str(), pos2),
                    (other, _) => other,
                }
            } else {
                // lhs.rhs
                let l = optimize_expr(*lhs, state);
                let r = optimize_expr(*rhs, state);
                Expr::Dot(Box::new(l), Box::new(r), pos)
            }
        },
        other => other,
    }
}

/// Optimize an index expression.
fn optimize_index<'a, H: Host>(expr: Expr, state: &mut State<'a, H>) -> (r: Expr)
    requires
        expr is Index,
    ensures
        r@ == old(state).rewritten(expr@).0,
        old(state).marked(final(state), old(state).rewritten(expr@).1),
    decreases expr, 1int,
{
    match expr {
        Expr::Index(lhs, rhs, pos) => {
            assert(expr@ == ExprValue::Index(Box::new(lhs@), Box::new(rhs@), pos));
            let promoted = match (&*lhs, &*rhs) {
                // array[int]
                (Expr::Array(items, _), Expr::IntegerConstant(i, _)) => *i >= 0 && (*i as u64) < (
                items.len() as u64) && exprs_pure(items),
                // map[string]
                (Expr::ObjMap(items, _), Expr::StringConstant(_, _)) => values_pure(items),
                // string[int]
                (Expr::StringConstant(s, _), Expr::IntegerConstant(i, _)) => *i >= 0 && (*i as u64) < (
                s.as_str().unicode_len() as u64),
                _ => false,
            };
            if promoted {
                state.set_dirty();
                match (*lhs, *rhs) {
                    // Array literal where everything is pure - promote the indexed item.
                    // All other items can be thrown away.
                    (Expr::Array(items, pos2), Expr::IntegerConstant(i, _)) => {
                        let mut items = items;
                        assert(exprs_of(items@)[i as int] == items@[i as int]@);
                        items.swap_remove(i as usize).set_position(pos2)
                    },
                    // Map literal where everything is pure - promote the indexed item.
                    // All other items can be thrown away.
                    (Expr::ObjMap(items, pos2), Expr::StringConstant(s, _)) => pick_named(
                        items,
                        s.as_str(),
                        pos2,
                    ),
                    // String literal indexing - get the character
                    (Expr::StringConstant(s, pos2), Expr::IntegerConstant(i, _)) => Expr::CharConstant(
                        s.as_str().get_char(i as usize),
                        pos2,
                    ),
                    (other, _) => other,
                }
            } else {
                // lhs[rhs]
                let l = optimize_expr(*lhs, state);
                let r = optimize_expr(*rhs, state);
                Expr::Index(Box::new(l), Box::new(r), pos)
            }
        },
        other => other,
    }
}

/// Optimize an `in` expression.
fn optimize_in<'a, H: Host>(expr: Expr, state: &mut State<'a, H>) -> (r: Expr)
    requires
        expr is In,
    ensures
        r@ == old(state).rewritten(expr@).0,
        old(state).marked(final(state), old(state).rewritten(expr@).1),
    decreases expr, 1int,
{
    match expr {
        Expr::In(lhs, rhs, pos) => {
            assert(expr@ == ExprValue::In(Box::new(lhs@), Box::new(rhs@), pos));
            let folded: Option<(bool, Position)> = match (&*lhs, &*rhs) {
                // "xxx" in "xxxxx"
                (Expr::StringConstant(l, pos2), Expr::StringConstant(r, _)) => Some(
                    (str_contains(r.as_str(), l.as_str()), *pos2),
                ),
                // 'x' in "xxxxx"
                (Expr::CharConstant(c, pos2), Expr::StringConstant(r, _)) => {
                    let pattern = char_to_string(*c);
                    Some((str_contains(r.as_str(), pattern.as_str()), *pos2))
                },
                // "xxx" in #{...}
                (Expr::StringConstant(l, pos2), Expr::ObjMap(items, _)) => Some(
                    (find_named(items, l.as_str()).is_some(), *pos2),
                ),
                // 'x' in #{...}
                (Expr::CharConstant(c, pos2), Expr::ObjMap(items, _)) => {
                    let key = char_to_string(*c);
                    Some((find_named(items, key.as_str()).is_some(), *pos2))
                },
                _ => None,
            };
            match folded {
                Some((found, pos2)) => {
                    state.set_dirty();
                    if found {
                        Expr::True(pos2)
                    } else {
                        Expr::False(pos2)
                    }
                },
                None => {
                    // lhs in rhs
                    let l = optimize_expr(*lhs, state);
                    let r = optimize_expr(*rhs, state);
                    Expr::In(Box::new(l), Box::new(r), pos)
                },
            }
        },
        other => other,
    }
}

/// Optimize `lhs && rhs`.
fn optimize_and<'a, H: Host>(expr: Expr, state: &mut State<'a, H>) -> (r: Expr)
    requires
        expr is And,
    ensures
        r@ == old(state).rewritten(expr@).0,
        old(state).marked(final(state), old(state).rewritten(expr@).1),
    decreases expr, 1int,
{
    match expr {
        Expr::And(lhs, rhs, pos) => {
            assert(expr@ == ExprValue::And(Box::new(lhs@), Box::new(rhs@), pos));
            match *lhs {
                // true && rhs -> rhs
                Expr::True(_) => {
                    state.set_dirty();
                    *rhs
                },
                // false && rhs -> false
                Expr::False(pos2) => {
                    state.set_dirty();
                    Expr::False(pos2)
                },
                l => match *rhs {
                    // lhs && true -> lhs
                    Expr::True(_) => {
                        state.set_dirty();
                        optimize_expr(l, state)
                    },
                    // lhs && rhs
                    r => {
                        let l2 = optimize_expr(l, state);
                        let r2 = optimize_expr(r, state);
                        Expr::And(Box::new(l2), Box::new(r2), pos)
                    },
                },
            }
        },
        other => other,
    }
}

/// Optimize `lhs || rhs`.
fn optimize_or<'a, H: Host>(expr: Expr, state: &mut State<'a, H>) -> (r: Expr)
    requires
        expr is Or,
    ensures
        r@ == old(state).rewritten(expr@).0,
        old(state).marked(final(state), old(state).rewritten(expr@).1),
    decreases expr, 1int,
{
    match expr {
        Expr::Or(lhs, rhs, pos) => {
            assert(expr@ == ExprValue::Or(Box::new(lhs@), Box::new(rhs@), pos));
            match *lhs {
                // false || rhs -> rhs
                Expr::False(_) => {
                    state.set_dirty();
                    *rhs
                },
                // true || rhs -> true
                Expr::True(pos2) => {
                    state.set_dirty();
                    Expr::True(pos2)
                },
                l => match *rhs {
                    // lhs || false
                    Expr::False(_) => {
                        state.set_dirty();
                        optimize_expr(l, state)
                    },
                    // lhs || rhs
                    r => {
                        let l2 = optimize_expr(l, state);
                        let r2 = optimize_expr(r, state);
                        Expr::Or(Box::new(l2), Box::new(r2), pos)
                    },
                },
            }
        },
        other => other,
    }
}

/// What a call with constant arguments is replaced by where it is made
/// ahead of time, if anything.
fn fold_call<'a, H: Host>(
    state: &State<'a, H>,
    id: &str,
    args: &Vec<Expr>,
    def_value: &Option<Dynamic>,
    pos: Position,
) -> (r: Option<Expr>)
    ensures
        match r {
            Some(e) => call_result(state.engine, id@, exprs_of(args@), opt_view(*def_value), pos)
                == Some(e@),
            None => call_result(state.engine, id@, exprs_of(args@), opt_view(*def_value), pos).is_none(),
        },
{
    match values_of_constants(args) {
        Some(arg_values) => {
            let mut arg_values = arg_values;
            // Save the typename of the first argument if it is `type_of()`
            let arg_for_type_of: Option<String> = if str_eq(id, KEYWORD_TYPE_OF) && arg_values.len() == 1 {
                Some(state.engine.map_type_name(arg_values[0].type_label()).to_owned())
            } else {
                None
            };
            let result: Option<Dynamic> = match call_fn(state.engine, id, &mut arg_values, pos) {
                Err(_) => None,
                Ok(Some(v)) => Some(v),
                Ok(None) => match arg_for_type_of {
                    // Handle `type_of()`
                    Some(name) => Some(Dynamic::Str(name)),
                    // Otherwise use the default value, if any
                    None => match def_value {
                        Some(d) => Some(d.clone()),
                        None => None,
                    },
                },
            };
            match result {
                Some(v) => map_dynamic_to_expr(v, pos),
                None => None,
            }
        },
        None => None,
    }
}

/// Optimize a function call.
fn optimize_fn_call<'a, H: Host>(expr: Expr, state: &mut State<'a, H>) -> (r: Expr)
    requires
        expr is FnCall,
    ensures
        r@ == old(state).rewritten(expr@).0,
        old(state).marked(final(state), old(state).rewritten(expr@).1),
    decreases expr, 1int,
{
    let folded: Option<Expr> = match &expr {
        Expr::FnCall(id, args, def_value, pos) => {
            assert(expr@ == ExprValue::FnCall(id@, exprs_of(args@), opt_view(*def_value), *pos));
            if str_eq(id.as_str(), KEYWORD_PRINT) || str_eq(id.as_str(), KEYWORD_DEBUG) || str_eq(
                id.as_str(),
                KEYWORD_EVAL,
            ) {
                // Do not call some special keywords
                None
            } else if state.optimization_level.is_full() && exprs_constant(args) && !is_declared(
                state.fn_lib,
                id.as_str(),
                args.len(),
            ) {
                // Eagerly call functions
                fold_call(state, id.as_str(), args, def_value, *pos)
            } else {
                None
            }
        },
        _ => None,
    };
    match folded {
        Some(e) => {
            state.set_dirty();
            e
        },
        // id(args ..) -> optimize function call arguments
        None => optimize_call_args(expr, state),
    }
}

/// Optimize a statement.
pub fn optimize_stmt<'a, H: Host>(stmt: Stmt, state: &mut State<'a, H>, preserve_result: bool) -> (r: Stmt)
    ensures
        r@ == old(state).rewritten_stmt(stmt@, preserve_result).0,
        old(state).marked(final(state), old(state).rewritten_stmt(stmt@, preserve_result).1),
    decreases stmt, 2int,
{
    match stmt {
        Stmt::IfThenElse(_, _, None) => optimize_if(stmt, state, preserve_result),
        Stmt::IfThenElse(_, _, Some(_)) => optimize_if_else(stmt, state, preserve_result),
        Stmt::While(_, _) => optimize_while(stmt, state, preserve_result),
        Stmt::Loop(_) => optimize_loop(stmt, state, preserve_result),
        // for id in expr { block }
        Stmt::For(id, expr, block) => {
            assert(stmt@ == StmtValue::For(id@, Box::new(expr@), Box::new(block@)));
            let e = optimize_expr(*expr, state);
            let b = optimize_stmt(*block, state, false);
            Stmt::For(id, Box::new(e), Box::new(b))
        },
        // let id = expr;
        Stmt::Let(id, Some(expr), pos) => {
            assert(stmt@ == StmtValue::Let(id@, Some(Box::new(expr@)), pos));
            Stmt::Let(id, Some(Box::new(optimize_expr(*expr, state))), pos)
        },
        // { block }
        Stmt::Block(_, _) => optimize_block(stmt, state, preserve_result),
        // expr;
        Stmt::Expr(expr) => {
            assert(stmt@ == StmtValue::Expr(Box::new(expr@)));
            Stmt::Expr(Box::new(optimize_expr(*expr, state)))
        },
        // return expr;
        Stmt::ReturnWithVal(Some(expr), is_return, pos) => {
            assert(stmt@ == StmtValue::ReturnWithVal(Some(Box::new(expr@)), is_return, pos));
            Stmt::ReturnWithVal(Some(Box::new(optimize_expr(*expr, state))), is_return, pos)
        },
        // All other statements - skip
        other => other,
    }
}

/// Optimize an `if` without `else`.
fn optimize_if<'a, H: Host>(stmt: Stmt, state: &mut State<'a, H>, preserve_result: bool) -> (r: Stmt)
    requires
        stmt matches Stmt::IfThenElse(_, _, None),
    ensures
        r@ == old(state).rewritten_stmt(stmt@, preserve_result).0,
        old(state).marked(final(state), old(state).rewritten_stmt(stmt@, preserve_result).1),
    decreases stmt, 1int,
{
    match stmt {
        Stmt::IfThenElse(expr, if_block, None) => {
            assert(stmt@ == StmtValue::IfThenElse(Box::new(expr@), Box::new(if_block@), None));
            let empty = match &*if_block {
                Stmt::Noop(_) => true,
                _ => false,
            };
            if empty {
                // if expr { Noop }
                state.set_dirty();

                let pos = expr.position();
                let expr = optimize_expr(*expr, state);

                if preserve_result {
                    // -> { expr, Noop }
                    let mut statements: Vec<Stmt> = Vec::new();
                    statements.push(Stmt::Expr(Box::new(expr)));
                    statements.push(*if_block);
                    assert(stmts_of(statements@) =~= seq![
                        StmtValue::Expr(Box::new(expr@)),
                        if_block@,
                    ]);
                    Stmt::Block(statements, pos)
                } else {
                    // -> expr
                    Stmt::Expr(Box::new(expr))
                }
            } else {
                match *expr {
                    // if false { if_block } -> Noop
                    Expr::False(pos) => {
                        state.set_dirty();
                        Stmt::Noop(pos)
                    },
                    // if true { if_block } -> if_block
                    Expr::True(_) => optimize_stmt(*if_block, state, true),
                    // if expr { if_block }
                    other => {
                        let e = optimize_expr(other, state);
                        let b = optimize_stmt(*if_block, state, true);
                        Stmt::IfThenElse(Box::new(e), Box::new(b), None)
                    },
                }
            }
        },
        other => other,
    }
}

/// Optimize an `if` with `else`.
fn optimize_if_else<'a, H: Host>(stmt: Stmt, state: &mut State<'a, H>, preserve_result: bool) -> (r: Stmt)
    requires
        stmt matches Stmt::IfThenElse(_, _, Some(_)),
    ensures
        r@ == old(state).rewritten_stmt(stmt@, preserve_result).0,
        old(state).marked(final(state), old(state).rewritten_stmt(stmt@, preserve_result).1),
    decreases stmt, 1int,
{
    match stmt {
        Stmt::IfThenElse(expr, if_block, Some(else_block)) => {
            assert(stmt@ == StmtValue::IfThenElse(
                Box::new(expr@),
                Box::new(if_block@),
                Some(Box::new(else_block@)),
            ));
            match *expr {
                // if false { if_block } else { else_block } -> else_block
                Expr::False(_) => optimize_stmt(*else_block, state, true),
                // if true { if_block } else { else_block } -> if_block
                Expr::True(_) => optimize_stmt(*if_block, state, true),
                // if expr { if_block } else { else_block }
                other => {
                    let e = optimize_expr(other, state);
                    let b = optimize_stmt(*if_block, state, true);
                    let else_part = match optimize_stmt(*else_block, state, true) {
                        // Noop -> no else block
                        Stmt::Noop(_) => None,
                        s => Some(Box::new(s)),
                    };
                    Stmt::IfThenElse(Box::new(e), Box::new(b), else_part)
                },
            }
        },
        other => other,
    }
}

/// Optimize a `while` loop.
fn optimize_while<'a, H: Host>(stmt: Stmt, state: &mut State<'a, H>, preserve_result: bool) -> (r: Stmt)
    requires
        stmt is While,
    ensures
        r@ == old(state).rewritten_stmt(stmt@, preserve_result).0,
        old(state).marked(final(state), old(state).rewritten_stmt(stmt@, preserve_result).1),
    decreases stmt, 1int,
{
    match stmt {
        Stmt::While(expr, block) => {
            assert(stmt@ == StmtValue::While(Box::new(expr@), Box::new(block@)));
            match *expr {
                // while false { block } -> Noop
                Expr::False(pos) => {
                    state.set_dirty();
                    Stmt::Noop(pos)
                },
                // while true { block } -> loop { block }
                Expr::True(_) => Stmt::Loop(Box::new(optimize_stmt(*block, state, false))),
                // while expr { block }
                other => match optimize_stmt(*block, state, false) {
                    // while expr { break; } -> { expr; }
                    Stmt::Break(pos) => {
                        // Only a single break statement - turn into running the guard expression once
                        state.set_dirty();
                        let mut statements: Vec<Stmt> = Vec::new();
                        let guard = optimize_expr(other, state);
                        statements.push(Stmt::Expr(Box::new(guard)));
                        if preserve_result {
                            statements.push(Stmt::Noop(pos));
                            assert(stmts_of(statements@) =~= seq![
                                StmtValue::Expr(Box::new(guard@)),
                                StmtValue::Noop(pos),
                            ]);
                        } else {
                            assert(stmts_of(statements@) =~= seq![StmtValue::Expr(Box::new(guard@))]);
                        }
                        Stmt::Block(statements, pos)
                    },
                    // while expr { block }
                    s => Stmt::While(Box::new(optimize_expr(other, state)), Box::new(s)),
                },
            }
        },
        other => other,
    }
}

/// Optimize a `loop`.
fn optimize_loop<'a, H: Host>(stmt: Stmt, state: &mut State<'a, H>, preserve_result: bool) -> (r: Stmt)
    requires
        stmt is Loop,
    ensures
        r@ == old(state).rewritten_stmt(stmt@, preserve_result).0,
        old(state).marked(final(state), old(state).rewritten_stmt(stmt@, preserve_result).1),
    decreases stmt, 1int,
{
    match stmt {
        Stmt::Loop(block) => {
            assert(stmt@ == StmtValue::Loop(Box::new(block@)));
            match optimize_stmt(*block, state, false) {
                // loop { break; } -> Noop
                Stmt::Break(pos) => {
                    // Only a single break statement
                    state.set_dirty();
                    Stmt::Noop(pos)
                },
                // loop { block }
                s => Stmt::Loop(Box::new(s)),
            }
        },
        other => other,
    }
}

/// Optimize each statement of a block. A `const` whose expression has a
/// value becomes a no-op, and the statements after it are optimized with
/// the constant known.
fn optimize_block_stmts<'a, H: Host>(block: Vec<Stmt>, state: &mut State<'a, H>, preserve_result: bool) -> (r: Vec<
    Stmt,
>)
    ensures
        stmts_of(r@) == old(state).mapped_block(stmts_of(block@), preserve_result, block@.len() as int).0,
        final(state).env() == old(state).mapped_block(
            stmts_of(block@),
            preserve_result,
            block@.len() as int,
        ).1,
        final(state).changed == (old(state).changed || old(state).mapped_block(
            stmts_of(block@),
            preserve_result,
            block@.len() as int,
        ).2),
        old(state).same_setup(final(state)),
    decreases block, 0int,
{
    let mut list = block;
    let mut result: Vec<Stmt> = Vec::new();
    let mut i: usize = 0;
    assert(stmts_of(result@) =~= Seq::<StmtValue>::empty());
    while i < list.len()
        invariant
            i <= list@.len(),
            list@.len() == block@.len(),
            forall|k: int| i <= k < list@.len() ==> list@[k] == block@[k],
            stmts_of(result@) == old(state).mapped_block(stmts_of(block@), preserve_result, i as int).0,
            state.env() == old(state).mapped_block(stmts_of(block@), preserve_result, i as int).1,
            state.changed == (old(state).changed || old(state).mapped_block(
                stmts_of(block@),
                preserve_result,
                i as int,
            ).2),
            old(state).same_setup(state),
        decreases list@.len() - i,
    {
        let s = take_stmt(&mut list, i);
        assert(stmts_of(block@)[i as int] == s@);
        let propagated = match &s {
            Stmt::Const(_, value, _) => value.get_constant_value().is_some(),
            _ => false,
        };
        let mapped = if propagated {
            match s {
                // Add constant into the state
                Stmt::Const(name, value, pos2) => {
                    assert(s@ == StmtValue::Const(name@, Box::new(value@), pos2));
                    state.push_constant(name, *value);
                    state.set_dirty();
                    // No need to keep constants
                    Stmt::Noop(pos2)
                },
                other => other,
            }
        } else {
            // Optimize the statement
            optimize_stmt(s, state, preserve_result)
        };
        proof {
            lemma_stmts_push(result@, mapped);
        }
        result.push(mapped);
        i += 1;
    }
    result
}

/// Optimize a block: each statement is optimized, a `const` whose
/// expression has a value is taken away, and the list is tidied and the
/// block collapsed.
fn optimize_block<'a, H: Host>(stmt: Stmt, state: &mut State<'a, H>, preserve_result: bool) -> (r: Stmt)
    requires
        stmt is Block,
    ensures
        r@ == old(state).rewritten_stmt(stmt@, preserve_result).0,
        old(state).marked(final(state), old(state).rewritten_stmt(stmt@, preserve_result).1),
    decreases stmt, 1int,
{
    match stmt {
        Stmt::Block(block, pos) => {
            assert(stmt@ == StmtValue::Block(stmts_of(block@), pos));
            let ghost input = stmts_of(block@);
            let ghost consts = state.env();
            assert(old(state).rewritten_stmt(stmt@, preserve_result) == rewritten_block(
                old(state).engine,
                old(state).names(),
                old(state).full(),
                consts,
                input,
                pos,
                preserve_result,
            ));
            // Number of statements in the block before, for change detection
            let orig_len = block.len();
            // Number of constants in the state before, for restore later
            let orig_constants_len = state.constants.len();

            // Optimize each statement in the block
            let result = optimize_block_stmts(block, state, preserve_result);
            let ghost mapped_all = stmts_of(result@);
            proof {
                lemma_mapped_block_extends(
                    old(state).engine,
                    old(state).names(),
                    old(state).full(),
                    consts,
                    input,
                    preserve_result,
                    input.len() as int,
                );
            }

            // Remove all raw expression statements that are pure except for the very last statement
            let result = drop_pure(result, preserve_result);

            // Remove all let statements at the end of a block - the new variables will go away anyway.
            // But be careful only remove ones that have no initial values or have values that are pure expressions,
            // otherwise there may be side effects.
            let (result, removed) = strip_lets(result);
            let mut result = result;

            if preserve_result && removed {
                proof {
                    lemma_stmts_push(result@, Stmt::Noop(pos));
                }
                result.push(Stmt::Noop(pos));
            }
            // Remove everything following the the first return/throw

            let mut result = cut_dead(result);
            assert(stmts_of(result@) == tidied(mapped_all, preserve_result, pos));

            // Change detection
            if orig_len != result.len() {
                state.set_dirty();
            }
            // Pop the stack and remove all the local constants

            state.restore_constants(orig_constants_len);

            if result.len() == 0 {
                // No statements in block - change to No-op
                state.set_dirty();
                Stmt::Noop(pos)
            } else if result.len() == 1 {
                // Only one statement - promote
                state.set_dirty();
                assert(stmts_of(result@)[0] == result@[0]@);
                result.pop().unwrap()
            } else {
                Stmt::Block(result, pos)
            }
        },
        other => other,
    }
}

/// One pass over the statements of a script. A `const` stays and makes
/// its value known to what follows; every other statement is optimized, its
/// result kept if it is a `let` or the last statement.
fn optimize_pass<'a, H: Host>(statements: Vec<Stmt>, state: &mut State<'a, H>) -> (r: Vec<Stmt>)
    ensures
        stmts_of(r@) == old(state).pass(stmts_of(statements@), statements@.len() as int).0,
        final(state).env() == old(state).pass(stmts_of(statements@), statements@.len() as int).1,
        final(state).changed == (old(state).changed || old(state).pass(
            stmts_of(statements@),
            statements@.len() as int,
        ).2),
        old(state).same_setup(final(state)),
{
    let mut list = statements;
    let num_statements = list.len();
    let mut result: Vec<Stmt> = Vec::new();
    let mut i: usize = 0;
    assert(stmts_of(result@) =~= Seq::<StmtValue>::empty());
    while i < list.len()
        invariant
            i <= list@.len(),
            num_statements == list@.len(),
            list@.len() == statements@.len(),
            forall|k: int| i <= k < list@.len() ==> list@[k] == statements@[k],
            stmts_of(result@) == old(state).pass(stmts_of(statements@), i as int).0,
            state.env() == old(state).pass(stmts_of(statements@), i as int).1,
            state.changed == (old(state).changed || old(state).pass(stmts_of(statements@), i as int).2),
            old(state).same_setup(state),
        decreases list@.len() - i,
    {
        let s = take_stmt(&mut list, i);
        assert(stmts_of(statements@)[i as int] == s@);
        let is_const = match &s {
            Stmt::Const(_, _, _) => true,
            _ => false,
        };
        let mapped = if is_const {
            match &s {
                Stmt::Const(name, value, pos2) => {
                    assert(s@ == StmtValue::Const(name@, Box::new(value@), *pos2));
                    // Load constants
                    match value.get_constant_value() {
                        Some(v) => {
                            proof {
                                lemma_literal_value(v@, value@.position());
                            }
                            match map_dynamic_to_expr(v, value.position()) {
                                Some(copy) => {
                                    state.push_constant(name.clone(), copy);
                                },
                                None => {},
                            }
                        },
                        None => {},
                    }
                },
                _ => {},
            }
            // Keep it in the global scope
            s
        } else {
            // Keep all variable declarations at this level
            // and always keep the last return value
            let keep = match &s {
                Stmt::Let(_, _, _) => true,
                _ => i == num_statements - 1,
            };
            optimize_stmt(s, state, keep)
        };
        proof {
            lemma_stmts_push(result@, mapped);
        }
        result.push(mapped);
        i += 1;
    }
    result
}

/// Optimize the statements of a script.
///
/// With no optimization the statements stay. Else they go through passes
/// until a pass changes nothing, each with the constants of the scope known
/// from the start, and what the last pass gives is tidied: the pure
/// statements are dropped but for the last one, which is dropped too if it
/// is a no-op that nothing stands before.
pub fn optimize<H: Host>(
    statements: Vec<Stmt>,
    engine: &Engine<H>,
    scope: &Scope,
    fn_lib: &Vec<(String, usize)>,
    level: OptimizationLevel,
) -> (r: Vec<Stmt>)
    ensures
        level == OptimizationLevel::Off ==> r == statements,
        stmts_of(r@) == optimized(engine, names_view(fn_lib@), level, scope@, stmts_of(statements@)),
{
    // If optimization level is None then skip optimizing
    if level.is_none() {
        return statements;
    }
    // Set up the state

    let mut state = State::new(engine, fn_lib, level);
    assert(state.env() =~= Seq::empty());

    // Add constants from the scope into the state
    let mut k: usize = scope.len();
    while k > 0
        invariant
            k <= scope@.len(),
            scope@.len() == scope.entries@.len(),
            state.env() == scope_consts(scope@, scope@.len() - k),
            state.engine == engine,
            state.fn_lib == fn_lib,
            state.optimization_level == level,
        decreases k,
    {
        let entry = &scope.entries[k - 1];
        // Get all the constants with definite constant expressions
        if entry.typ == EntryType::Constant {
            proof {
                lemma_literal_value(entry.value@, Position::spec_none());
            }
            match constant_for(&entry.value, Position::none()) {
                Some(e) => {
                    state.push_constant(entry.name.clone(), e);
                },
                None => {},
            }
        }
        k -= 1;
    }

    let orig_constants_len = state.constants.len();
    let ghost consts = state.env();
    let ghost names = names_view(fn_lib@);
    let ghost full = level == OptimizationLevel::Full;

    let mut result = statements;
    let mut passes_left: u64 = 0xffff_ffff_ffff_ffff;

    // Optimization loop
    loop
        invariant_except_break
            settled(engine, names, full, consts, stmts_of(result@), passes_left as nat) == settled(
                engine,
                names,
                full,
                consts,
                stmts_of(statements@),
                u64::MAX as nat,
            ),
        invariant
            state.env().len() >= consts.len(),
            state.env().subrange(0, consts.len() as int) == consts,
            consts.len() == orig_constants_len,
            names == names_view(fn_lib@),
            full == (level == OptimizationLevel::Full),
            state.engine == engine,
            state.fn_lib == fn_lib,
            state.optimization_level == level,
        ensures
            cleaned(stmts_of(result@)) == settled(
                engine,
                names,
                full,
                consts,
                stmts_of(statements@),
                u64::MAX as nat,
            ),
        decreases passes_left,
    {
        state.reset();
        state.restore_constants(orig_constants_len);
        let ghost before = stmts_of(result@);

        result = optimize_pass(result, &mut state);

        proof {
            lemma_pass_extends(engine, names, full, consts, before, before.len() as int);
            let p = pass(engine, names, full, consts, before, before.len() as int);
            assert(stmts_of(result@) == p.0);
            assert(state.changed == p.2);
            assert(settled(engine, names, full, consts, before, passes_left as nat) == if !p.2
                || passes_left == 0 {
                cleaned(p.0)
            } else {
                settled(engine, names, full, consts, p.0, (passes_left - 1) as nat)
            });
        }

        if !state.is_dirty() || passes_left == 0 {
            break ;
        }
        passes_left -= 1;
    }

    // Eliminate code that is pure but always keep the last statement
    let ghost last = stmts_of(result@);
    let n = result.len();
    if n == 0 {
        return result;
    }
    let mut result = drop_pure(result, true);
    // Add back the last statement unless it is a lone No-op
    let lone_noop = if result.len() == 1 {
        assert(stmts_of(result@)[0] == result@[0]@);
        match &result[0] {
            Stmt::Noop(_) => true,
            _ => false,
        }
    } else {
        false
    };
    if lone_noop {
        result.pop();
        assert(stmts_of(result@) =~= cleaned(last));
    } else {
        assert(stmts_of(result@) =~= cleaned(last));
    }
    result
}

/// Optimize the body of a function definition as a script of its own, with
/// no constants known. A `return` at the end of the body gives way to the
/// value it returns.
fn optimize_fn_def<H: Host>(
    fn_def: FnDef,
    engine: &Engine<H>,
    fn_lib: &Vec<(String, usize)>,
    level: OptimizationLevel,
) -> (r: FnDef)
    ensures
        r@ == optimized_def(engine, names_view(fn_lib@), level, fn_def@),
{
    if level.is_none() {
        return fn_def;
    }
    let FnDef { name, params, body, pos } = fn_def;
    let body_pos = body.position();

    // Optimize the function body
    let mut statements: Vec<Stmt> = Vec::new();
    statements.push(*body);
    assert(stmts_of(statements@) =~= seq![fn_def@.body]);
    let scope = Scope::new();
    let mut optimized_body = optimize(statements, engine, &scope, fn_lib, level);
    let ghost stmts = stmts_of(optimized_body@);
    assert(optimized_body@.len() > 0 ==> stmts.last() == optimized_body@.last()@);

    // {} -> Noop
    let new_body = match optimized_body.pop() {
        None => Stmt::Noop(body_pos),
        Some(last) => {
            assert(last@ == stmts.last());
            match last {
                // { return val; } -> val
                Stmt::ReturnWithVal(Some(val), ReturnType::Return, _) => Stmt::Expr(val),
                // { return; } -> ()
                Stmt::ReturnWithVal(None, ReturnType::Return, p) => {
                    let unit = Expr::Unit(p);
                    assert(unit@ is Unit);
                    Stmt::Expr(Box::new(unit))
                },
                // All others
                stmt => stmt,
            }
        },
    };
    assert(new_body@ == unwrapped(stmts, body_pos));
    FnDef { name, params, body: Box::new(new_body), pos }
}

/// Optimize an AST: the statements of the script with the constants of the
/// scope known, and the body of each function that the script defines.
pub fn optimize_into_ast<H: Host>(
    engine: &Engine<H>,
    scope: &Scope,
    statements: Vec<Stmt>,
    functions: Vec<FnDef>,
    level: OptimizationLevel,
) -> (ast: AST)
    ensures
        level == OptimizationLevel::Off ==> ast.statements == statements,
        ast_optimized(engine, scope@, stmts_of(statements@), defs_of(functions@), level, &ast),
{
    let mut fn_lib: Vec<(String, usize)> = Vec::new();
    let mut i: usize = 0;
    while i < functions.len()
        invariant
            i <= functions.len(),
            fn_lib@.len() == i,
            forall|k: int|
                0 <= k < i ==> fn_lib@[k].0@ == functions@[k].name@ && fn_lib@[k].1
                    == functions@[k].params@.len(),
        decreases functions.len() - i,
    {
        fn_lib.push((functions[i].name.clone(), functions[i].params.len()));
        i += 1;
    }
    assert(names_view(fn_lib@) =~= names_of(defs_of(functions@)));

    let mut list = functions;
    let n = list.len();
    // The definitions are taken from the back, so the list is built in reverse and turned round.
    let mut rev: Vec<FnDef> = Vec::new();
    while list.len() > 0
        invariant
            list@.len() + rev@.len() == n,
            n == functions@.len(),
            forall|k: int| 0 <= k < list@.len() ==> list@[k] == functions@[k],
            forall|k: int| 0 <= k < rev@.len() ==> rev@[k] == functions@[n - 1 - k],
        decreases list@.len(),
    {
        let f = list.pop().unwrap();
        rev.push(f);
    }
    let mut defs: Vec<FnDef> = Vec::new();
    let mut j: usize = 0;
    while j < n
        invariant
            j <= n,
            n == functions@.len(),
            rev@.len() == n - j,
            forall|k: int| 0 <= k < rev@.len() ==> rev@[k] == functions@[n - 1 - k],
            defs@.len() == j,
            names_view(fn_lib@) == names_of(defs_of(functions@)),
            forall|k: int|
                0 <= k < j ==> (#[trigger] defs@[k])@ == optimized_def(
                    engine,
                    names_of(defs_of(functions@)),
                    level,
                    defs_of(functions@)[k],
                ),
        decreases n - j,
    {
        let f = rev.pop().unwrap();
        let d = optimize_fn_def(f, engine, &fn_lib, level);
        defs.push(d);
        j += 1;
    }
    assert(defs_of(defs@) =~= optimized_defs(engine, level, defs_of(functions@)));
    let lib = FunctionsLib::from_vec(defs);

    let optimized_statements = optimize(statements, engine, scope, &fn_lib, level);
    AST::new(optimized_statements, lib)
}

} // verus!
