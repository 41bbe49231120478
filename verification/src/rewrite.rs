//! What the optimizer makes of a syntax tree, as a mathematical function of
//! the tree's model: the tree that it is rewritten to, and whether the
//! optimizer marks the tree as changed.

use vstd::prelude::*;
use crate::any::{Value, type_ids_of};
use crate::engine::{
    Engine, Host, KEYWORD_DEBUG, KEYWORD_EVAL, KEYWORD_PRINT, KEYWORD_TYPE_OF, lib_of,
};
use crate::model::{
    ExprValue, FnDefValue, StmtValue, all_constant, all_pure, all_values_pure, constant_values,
    literal, stmts_of,
};
use crate::optimize::OptimizationLevel;
use crate::parser::{AST, Expr, ReturnType};
use crate::scope::{EntryType, EntryValue};
use crate::text::occurs_in;
use crate::token::Position;
use crate::utils::fn_hash;

verus! {

/// What the optimizer knows of the constants in reach: the name of each and,
/// where its expression has one, its value.
pub open spec fn env_of(constants: Seq<(String, Expr)>) -> Seq<(Seq<char>, Option<Value>)> {
    Seq::new(constants.len(), |i: int| (constants[i].0@, constants[i].1@.constant_value()))
}

/// The name and the number of parameters of each function that a script defines.
pub open spec fn names_view(names: Seq<(String, usize)>) -> Seq<(Seq<char>, usize)> {
    Seq::new(names.len(), |i: int| (names[i].0@, names[i].1))
}

/// Position of the constant pushed last, among the first `n`, that has the given name.
pub open spec fn known_below(consts: Seq<(Seq<char>, Option<Value>)>, name: Seq<char>, n: int) -> Option<int>
    decreases n,
{
    if n <= 0 || n > consts.len() {
        None
    } else if consts[n - 1].0 == name {
        Some(n - 1)
    } else {
        known_below(consts, name, n - 1)
    }
}

/// Position of the constant pushed last that has the given name.
pub open spec fn known(consts: Seq<(Seq<char>, Option<Value>)>, name: Seq<char>) -> Option<int> {
    known_below(consts, name, consts.len() as int)
}

/// Position of the first entry at or after `from` that has the given key.
pub open spec fn named_from(items: Seq<(Seq<char>, ExprValue, Position)>, name: Seq<char>, from: int) -> Option<
    int,
>
    decreases items.len() - from,
{
    if from < 0 || from >= items.len() {
        None
    } else if items[from].0 == name {
        Some(from)
    } else {
        named_from(items, name, from + 1)
    }
}

/// The expression of the first entry that has the given key, moved to the
/// given position; unit where no entry has the key.
pub open spec fn picked(items: Seq<(Seq<char>, ExprValue, Position)>, name: Seq<char>, pos: Position) -> ExprValue {
    match named_from(items, name, 0) {
        Some(k) => items[k].1.at(pos),
        None => ExprValue::Unit(pos),
    }
}

/// Is a function of this name and number of parameters defined by the script?
pub open spec fn declared(names: Seq<(Seq<char>, usize)>, name: Seq<char>, n: nat, from: int) -> bool
    decreases names.len() - from,
{
    if from < 0 || from >= names.len() {
        false
    } else if names[from].0 == name && names[from].1 == n {
        true
    } else {
        declared(names, name, n, from + 1)
    }
}

/// Is this the name of a function that is never called ahead of time?
pub open spec fn never_folded(name: Seq<char>) -> bool {
    name == KEYWORD_PRINT@ || name == KEYWORD_DEBUG@ || name == KEYWORD_EVAL@
}

/// What a call of a native function with constant arguments folds to,
/// if anything: the value that the function returns; where no native
/// function answers, the shown type name for `type_of` with one argument, or
/// else the default value. A call that fails folds to nothing.
pub open spec fn folded<H: Host>(
    engine: &Engine<H>,
    name: Seq<char>,
    args: Seq<Value>,
    def_val: Option<Value>,
    pos: Position,
) -> Option<Value> {
    match engine.find_native(fn_hash(name, type_ids_of(args))) {
        Some(id) => match engine.host.native_outcome(id, args, pos).0 {
            Ok(v) => Some(v),
            Err(_) => None,
        },
        None => if name == KEYWORD_TYPE_OF@ && args.len() == 1 {
            Some(Value::Str(engine.shown_type(args[0].type_label())))
        } else {
            def_val
        },
    }
}

/// The constant expression that a call is replaced by where it is made
/// ahead of time: its arguments have values, the call folds to a value, and
/// the value can be written as a constant expression.
pub open spec fn call_result<H: Host>(
    engine: &Engine<H>,
    name: Seq<char>,
    args: Seq<ExprValue>,
    def_val: Option<Value>,
    pos: Position,
) -> Option<ExprValue> {
    match constant_values(args, args.len() as int) {
        Some(values) => match folded(engine, name, values, def_val, pos) {
            Some(v) => literal(v, pos),
            None => None,
        },
        None => None,
    }
}

/// The constant expression that stands for a variable at a position: the
/// value of the constant pushed last under the name, written as a constant
/// expression; nothing where no such constant is known, or it has no value,
/// or the value cannot be written so.
pub open spec fn constant_for_name(consts: Seq<(Seq<char>, Option<Value>)>, name: Seq<char>, pos: Position) -> Option<
    ExprValue,
> {
    match known(consts, name) {
        Some(k) => match consts[k].1 {
            Some(v) => literal(v, pos),
            None => None,
        },
        None => None,
    }
}

/// What an index expression over literals is replaced by: the item of an
/// array literal of pure items at an integer within its bounds; the entry of
/// an object map literal of pure entries under a string, or unit where it has
/// none; the character of a string literal at an integer within its bounds.
pub open spec fn index_promoted(lhs: ExprValue, rhs: ExprValue) -> Option<ExprValue> {
    match (lhs, rhs) {
        // array[int]
        (ExprValue::Array(items, pos2), ExprValue::IntegerConstant(i, _)) => if 0 <= i < items.len()
            && all_pure(items, items.len() as int) {
            Some(items[i as int].at(pos2))
        } else {
            None
        },
        // map[string]
        (ExprValue::ObjMap(items, pos2), ExprValue::StringConstant(s, _)) => if all_values_pure(
            items,
            items.len() as int,
        ) {
            Some(picked(items, s, pos2))
        } else {
            None
        },
        // string[int]
        (ExprValue::StringConstant(s, pos2), ExprValue::IntegerConstant(i, _)) => if 0 <= i < s.len() {
            Some(ExprValue::CharConstant(s[i as int], pos2))
        } else {
            None
        },
        _ => None,
    }
}

/// What `lhs in rhs` over literals comes to, with the position that the
/// constant takes: whether a string or character literal occurs in a string
/// literal, or is a key of an object map literal.
pub open spec fn membership(lhs: ExprValue, rhs: ExprValue) -> Option<(bool, Position)> {
    match (lhs, rhs) {
        // "xxx" in "xxxxx"
        (ExprValue::StringConstant(l, pos2), ExprValue::StringConstant(r, _)) => Some(
            (occurs_in(l, r), pos2),
        ),
        // 'x' in "xxxxx"
        (ExprValue::CharConstant(c, pos2), ExprValue::StringConstant(r, _)) => Some(
            (occurs_in(seq![c], r), pos2),
        ),
        // "xxx" in #{...}
        (ExprValue::StringConstant(l, pos2), ExprValue::ObjMap(items, _)) => Some(
            (named_from(items, l, 0).is_some(), pos2),
        ),
        // 'x' in #{...}
        (ExprValue::CharConstant(c, pos2), ExprValue::ObjMap(items, _)) => Some(
            (named_from(items, seq![c], 0).is_some(), pos2),
        ),
        _ => None,
    }
}

/// The statements that stay when the pure ones among the first `n` are dropped.
pub open spec fn without_pure(stmts: Seq<StmtValue>, n: int) -> Seq<StmtValue>
    decreases n,
{
    if n <= 0 || n > stmts.len() {
        Seq::empty()
    } else if stmts[n - 1].is_pure() {
        without_pure(stmts, n - 1)
    } else {
        without_pure(stmts, n - 1).push(stmts[n - 1])
    }
}

/// The statements that stay when the pure ones are dropped, but for the
/// last statement where `keep_last` is set.
pub open spec fn pruned(stmts: Seq<StmtValue>, keep_last: bool) -> Seq<StmtValue> {
    if keep_last && stmts.len() > 0 {
        without_pure(stmts, stmts.len() - 1).push(stmts.last())
    } else {
        without_pure(stmts, stmts.len() as int)
    }
}

/// Is this a `let` that nothing is lost with: one without a value, or with a pure one?
pub open spec fn idle_let(stmt: StmtValue) -> bool {
    match stmt {
        StmtValue::Let(_, None, _) => true,
        StmtValue::Let(_, Some(e), _) => e.is_pure(),
        _ => false,
    }
}

/// The number of statements that stay when the idle `let`s at the end are dropped.
pub open spec fn kept_len(stmts: Seq<StmtValue>, n: int) -> int
    decreases n,
{
    if n <= 0 || n > stmts.len() {
        0
    } else if idle_let(stmts[n - 1]) {
        kept_len(stmts, n - 1)
    } else {
        n
    }
}

/// Does a statement end the block: a `return`, a `throw` or a `break`?
pub open spec fn ends_block(stmt: StmtValue) -> bool {
    stmt is ReturnWithVal || stmt is Break
}

/// The number of statements up to and with the first among those from `from`
/// on that ends the block, or all of them.
pub open spec fn live_len(stmts: Seq<StmtValue>, from: int) -> int
    decreases stmts.len() - from,
{
    if from < 0 || from >= stmts.len() {
        stmts.len() as int
    } else if ends_block(stmts[from]) {
        from + 1
    } else {
        live_len(stmts, from + 1)
    }
}

/// The statements of a block after the list of its rewritten statements was
/// tidied: the pure ones dropped but for the last where the result is kept,
/// the idle `let`s at the end dropped, with a no-op in their place where the
/// result is kept, and everything after the first `return`, `throw` or
/// `break` dropped.
pub open spec fn tidied(stmts: Seq<StmtValue>, preserve_result: bool, pos: Position) -> Seq<StmtValue> {
    let p = pruned(stmts, preserve_result);
    let k = kept_len(p, p.len() as int);
    let s = p.subrange(0, k);
    let t = if preserve_result && k < p.len() {
        s.push(StmtValue::Noop(pos))
    } else {
        s
    };
    t.subrange(0, live_len(t, 0))
}

/// What a block of the given statements collapses to: nothing becomes a
/// no-op, one statement stands for itself, more stay a block.
pub open spec fn collapsed(stmts: Seq<StmtValue>, pos: Position) -> StmtValue {
    if stmts.len() == 0 {
        StmtValue::Noop(pos)
    } else if stmts.len() == 1 {
        stmts[0]
    } else {
        StmtValue::Block(stmts, pos)
    }
}

/// What the first `n` expressions of a list are rewritten to, one by one,
/// and whether any of them is marked as changed.
pub open spec fn rewritten_exprs<H: Host>(
    engine: &Engine<H>,
    names: Seq<(Seq<char>, usize)>,
    full: bool,
    consts: Seq<(Seq<char>, Option<Value>)>,
    items: Seq<ExprValue>,
    n: int,
) -> (Seq<ExprValue>, bool)
    decreases items, n,
{
    if n <= 0 || n > items.len() {
        (Seq::empty(), false)
    } else {
        let (done, d1) = rewritten_exprs(engine, names, full, consts, items, n - 1);
        let (e, d2) = rewritten_expr(engine, names, full, consts, items[n - 1]);
        (done.push(e), d1 || d2)
    }
}

/// What the first `n` entries of an object map literal are rewritten to, one
/// by one, and whether any of them is marked as changed.
pub open spec fn rewritten_items<H: Host>(
    engine: &Engine<H>,
    names: Seq<(Seq<char>, usize)>,
    full: bool,
    consts: Seq<(Seq<char>, Option<Value>)>,
    items: Seq<(Seq<char>, ExprValue, Position)>,
    n: int,
) -> (Seq<(Seq<char>, ExprValue, Position)>, bool)
    decreases items, n,
{
    if n <= 0 || n > items.len() {
        (Seq::empty(), false)
    } else {
        let (done, d1) = rewritten_items(engine, names, full, consts, items, n - 1);
        let (e, d2) = rewritten_expr(engine, names, full, consts, items[n - 1].1);
        (done.push((items[n - 1].0, e, items[n - 1].2)), d1 || d2)
    }
}

/// A function call with each of its arguments rewritten, and whether any
/// of them is marked as changed.
pub open spec fn rewritten_call<H: Host>(
    engine: &Engine<H>,
    names: Seq<(Seq<char>, usize)>,
    full: bool,
    consts: Seq<(Seq<char>, Option<Value>)>,
    e: ExprValue,
) -> (ExprValue, bool)
    decreases e, 0int,
{
    match e {
        ExprValue::FnCall(id, args, def_val, pos) => {
            let (args2, d) = rewritten_exprs(engine, names, full, consts, args, args.len() as int);
            (ExprValue::FnCall(id, args2, def_val, pos), d)
        },
        _ => (e, false),
    }
}

/// What the optimizer rewrites an expression to, and whether it marks the
/// expression as changed.
///
/// `names` are the functions that the script defines, `full` says whether
/// native functions are called ahead of time, and `consts` are the constants
/// known where the expression stands.
pub open spec fn rewritten_expr<H: Host>(
    engine: &Engine<H>,
    names: Seq<(Seq<char>, usize)>,
    full: bool,
    consts: Seq<(Seq<char>, Option<Value>)>,
    e: ExprValue,
) -> (ExprValue, bool)
    decreases e, 1int,
{
    match e {
        // ( stmt )
        ExprValue::Stmt(stmt, pos) => {
            let (s, d) = rewritten_stmt(engine, names, full, consts, *stmt, true);
            match s {
                // ( Noop ) -> ()
                StmtValue::Noop(_) => (ExprValue::Unit(pos), true),
                // ( expr ) -> expr
                StmtValue::Expr(inner) => (*inner, true),
                // ( stmt )
                _ => (ExprValue::Stmt(Box::new(s), pos), d),
            }
        },
        // id = expr
        ExprValue::Assignment(id, rhs, pos) => match *rhs {
            //id = id2 = expr2
            ExprValue::Assignment(id2, expr2, pos2) => {
                let (r, d) = rewritten_expr(engine, names, full, consts, *expr2);
                if same_variable(*id, *id2) {
                    // var = var = expr2 -> var = expr2
                    (ExprValue::Assignment(Box::new(id.at(pos)), Box::new(r), pos), true)
                } else {
                    // id1 = id2 = expr2
                    (
                        ExprValue::Assignment(
                            id,
                            Box::new(ExprValue::Assignment(id2, Box::new(r), pos2)),
                            pos,
                        ),
                        d,
                    )
                }
            },
            // id = expr
            _ => {
                let (r, d) = rewritten_expr(engine, names, full, consts, *rhs);
                (ExprValue::Assignment(id, Box::new(r), pos), d)
            },
        },
        // lhs.rhs
        ExprValue::Dot(lhs, rhs, pos) => match property_promoted(*lhs, *rhs) {
            // Map literal where everything is pure - promote the indexed item.
            Some(promoted) => (promoted, true),
            // lhs.rhs
            None => {
                let (l, d1) = rewritten_expr(engine, names, full, consts, *lhs);
                let (r, d2) = rewritten_expr(engine, names, full, consts, *rhs);
                (ExprValue::Dot(Box::new(l), Box::new(r), pos), d1 || d2)
            },
        },
        // lhs[rhs]
        ExprValue::Index(lhs, rhs, pos) => match index_promoted(*lhs, *rhs) {
            // A literal where everything is pure - promote the indexed item.
            Some(promoted) => (promoted, true),
            // lhs[rhs]
            None => {
                let (l, d1) = rewritten_expr(engine, names, full, consts, *lhs);
                let (r, d2) = rewritten_expr(engine, names, full, consts, *rhs);
                (ExprValue::Index(Box::new(l), Box::new(r), pos), d1 || d2)
            },
        },
        // [ items .. ]
        ExprValue::Array(items, pos) => {
            let (items2, d) = rewritten_exprs(engine, names, full, consts, items, items.len() as int);
            (ExprValue::Array(items2, pos), d)
        },
        // #{ items .. }
        ExprValue::ObjMap(items, pos) => {
            let (items2, d) = rewritten_items(engine, names, full, consts, items, items.len() as int);
            (ExprValue::ObjMap(items2, pos), d)
        },
        // lhs in rhs
        ExprValue::In(lhs, rhs, pos) => match membership(*lhs, *rhs) {
            // literal in literal -> true or false
            Some((found, pos2)) => (
                if found {
                    ExprValue::True(pos2)
                } else {
                    ExprValue::False(pos2)
                },
                true,
            ),
            // lhs in rhs
            None => {
                let (l, d1) = rewritten_expr(engine, names, full, consts, *lhs);
                let (r, d2) = rewritten_expr(engine, names, full, consts, *rhs);
                (ExprValue::In(Box::new(l), Box::new(r), pos), d1 || d2)
            },
        },
        // lhs && rhs
        ExprValue::And(lhs, rhs, pos) => match (*lhs, *rhs) {
            // true && rhs -> rhs
            (ExprValue::True(_), _) => (*rhs, true),
            // false && rhs -> false
            (ExprValue::False(pos2), _) => (ExprValue::False(pos2), true),
            // lhs && true -> lhs
            (_, ExprValue::True(_)) => (rewritten_expr(engine, names, full, consts, *lhs).0, true),
            // lhs && rhs
            _ => {
                let (l, d1) = rewritten_expr(engine, names, full, consts, *lhs);
                let (r, d2) = rewritten_expr(engine, names, full, consts, *rhs);
                (ExprValue::And(Box::new(l), Box::new(r), pos), d1 || d2)
            },
        },
        // lhs || rhs
        ExprValue::Or(lhs, rhs, pos) => match (*lhs, *rhs) {
            // false || rhs -> rhs
            (ExprValue::False(_), _) => (*rhs, true),
            // true || rhs -> true
            (ExprValue::True(pos2), _) => (ExprValue::True(pos2), true),
            // lhs || false
            (_, ExprValue::False(_)) => (rewritten_expr(engine, names, full, consts, *lhs).0, true),
            // lhs || rhs
            _ => {
                let (l, d1) = rewritten_expr(engine, names, full, consts, *lhs);
                let (r, d2) = rewritten_expr(engine, names, full, consts, *rhs);
                (ExprValue::Or(Box::new(l), Box::new(r), pos), d1 || d2)
            },
        },
        ExprValue::FnCall(id, args, def_val, pos) => {
            if !never_folded(id) && full && all_constant(args, args.len() as int) && !declared(
                names,
                id,
                args.len(),
                0,
            ) {
                // Eagerly call functions
                match call_result(engine, id, args, def_val, pos) {
                    Some(r) => (r, true),
                    None => rewritten_call(engine, names, full, consts, e),
                }
            } else {
                // id(args ..) -> optimize function call arguments
                rewritten_call(engine, names, full, consts, e)
            }
        },
        // constant-name
        ExprValue::Variable(name, _, pos) => match constant_for_name(consts, name, pos) {
            // Replace constant with value
            Some(r) => (r, true),
            None => (e, false),
        },
        // All other expressions - skip
        _ => (e, false),
    }
}

/// Are these two the same variable: of one name, found at one offset?
pub open spec fn same_variable(a: ExprValue, b: ExprValue) -> bool {
    match (a, b) {
        (ExprValue::Variable(var, index, _), ExprValue::Variable(var2, index2, _)) => var == var2 && index
            == index2,
        _ => false,
    }
}

/// What a property of an object map literal of pure entries is replaced
/// by: the entry under the property's name, or unit where it has none.
pub open spec fn property_promoted(lhs: ExprValue, rhs: ExprValue) -> Option<ExprValue> {
    match (lhs, rhs) {
        // map.string
        (ExprValue::ObjMap(items, pos2), ExprValue::Property(s, _)) => if all_values_pure(
            items,
            items.len() as int,
        ) {
            Some(picked(items, s, pos2))
        } else {
            None
        },
        _ => None,
    }
}

/// What the first `n` statements of a block are rewritten to, one by one,
/// the constants known after them, and whether any of them is marked as
/// changed. A `const` whose expression has a value becomes a no-op and makes
/// its value known to the statements after it.
pub open spec fn mapped_block<H: Host>(
    engine: &Engine<H>,
    names: Seq<(Seq<char>, usize)>,
    full: bool,
    consts: Seq<(Seq<char>, Option<Value>)>,
    stmts: Seq<StmtValue>,
    preserve_result: bool,
    n: int,
) -> (Seq<StmtValue>, Seq<(Seq<char>, Option<Value>)>, bool)
    decreases stmts, n,
{
    if n <= 0 || n > stmts.len() {
        (Seq::empty(), consts, false)
    } else {
        let (done, known, d1) = mapped_block(engine, names, full, consts, stmts, preserve_result, n - 1);
        match stmts[n - 1] {
            StmtValue::Const(name, e, pos) => if e.constant_value().is_some() {
                (done.push(StmtValue::Noop(pos)), known.push((name, e.constant_value())), true)
            } else {
                (done.push(stmts[n - 1]), known, d1)
            },
            _ => {
                let (s, d2) = rewritten_stmt(engine, names, full, known, stmts[n - 1], preserve_result);
                (done.push(s), known, d1 || d2)
            },
        }
    }
}

/// What the optimizer rewrites a statement to, and whether it marks the
/// statement as changed.
///
/// `preserve_result` says whether the value of the statement is used.
pub open spec fn rewritten_stmt<H: Host>(
    engine: &Engine<H>,
    names: Seq<(Seq<char>, usize)>,
    full: bool,
    consts: Seq<(Seq<char>, Option<Value>)>,
    s: StmtValue,
    preserve_result: bool,
) -> (StmtValue, bool)
    decreases s, 1int,
{
    match s {
        StmtValue::IfThenElse(expr, if_block, None) => if *if_block is Noop {
            // if expr { Noop }
            let (e, _) = rewritten_expr(engine, names, full, consts, *expr);
            if preserve_result {
                // -> { expr, Noop }
                (
                    StmtValue::Block(seq![StmtValue::Expr(Box::new(e)), *if_block], expr.position()),
                    true,
                )
            } else {
                // -> expr
                (StmtValue::Expr(Box::new(e)), true)
            }
        } else {
            match *expr {
                // if false { if_block } -> Noop
                ExprValue::False(pos) => (StmtValue::Noop(pos), true),
                // if true { if_block } -> if_block
                ExprValue::True(_) => rewritten_stmt(engine, names, full, consts, *if_block, true),
                // if expr { if_block }
                _ => {
                    let (e, d1) = rewritten_expr(engine, names, full, consts, *expr);
                    let (b, d2) = rewritten_stmt(engine, names, full, consts, *if_block, true);
                    (StmtValue::IfThenElse(Box::new(e), Box::new(b), None), d1 || d2)
                },
            }
        },
        // if expr { if_block } else { else_block }
        StmtValue::IfThenElse(expr, if_block, Some(else_block)) => match *expr {
            // if false { if_block } else { else_block } -> else_block
            ExprValue::False(_) => rewritten_stmt(engine, names, full, consts, *else_block, true),
            // if true { if_block } else { else_block } -> if_block
            ExprValue::True(_) => rewritten_stmt(engine, names, full, consts, *if_block, true),
            // if expr { if_block } else { else_block }
            _ => {
                let (e, d1) = rewritten_expr(engine, names, full, consts, *expr);
                let (b, d2) = rewritten_stmt(engine, names, full, consts, *if_block, true);
                let (t, d3) = rewritten_stmt(engine, names, full, consts, *else_block, true);
                (
                    StmtValue::IfThenElse(
                        Box::new(e),
                        Box::new(b),
                        // Noop -> no else block
                        if t is Noop {
                            None
                        } else {
                            Some(Box::new(t))
                        },
                    ),
                    d1 || d2 || d3,
                )
            },
        },
        // while expr { block }
        StmtValue::While(expr, block) => match *expr {
            // while false { block } -> Noop
            ExprValue::False(pos) => (StmtValue::Noop(pos), true),
            // while true { block } -> loop { block }
            ExprValue::True(_) => {
                let (b, d) = rewritten_stmt(engine, names, full, consts, *block, false);
                (StmtValue::Loop(Box::new(b)), d)
            },
            // while expr { block }
            _ => {
                let (b, d1) = rewritten_stmt(engine, names, full, consts, *block, false);
                let (e, d2) = rewritten_expr(engine, names, full, consts, *expr);
                match b {
                    // while expr { break; } -> { expr; }
                    StmtValue::Break(pos) => (
                        StmtValue::Block(
                            if preserve_result {
                                seq![StmtValue::Expr(Box::new(e)), StmtValue::Noop(pos)]
                            } else {
                                seq![StmtValue::Expr(Box::new(e))]
                            },
                            pos,
                        ),
                        true,
                    ),
                    // while expr { block }
                    _ => (StmtValue::While(Box::new(e), Box::new(b)), d1 || d2),
                }
            },
        },
        // loop { block }
        StmtValue::Loop(block) => {
            let (b, d) = rewritten_stmt(engine, names, full, consts, *block, false);
            match b {
                // loop { break; } -> Noop
                StmtValue::Break(pos) => (StmtValue::Noop(pos), true),
                // loop { block }
                _ => (StmtValue::Loop(Box::new(b)), d),
            }
        },
        // for id in expr { block }
        StmtValue::For(id, expr, block) => {
            let (e, d1) = rewritten_expr(engine, names, full, consts, *expr);
            let (b, d2) = rewritten_stmt(engine, names, full, consts, *block, false);
            (StmtValue::For(id, Box::new(e), Box::new(b)), d1 || d2)
        },
        // let id = expr;
        StmtValue::Let(id, Some(expr), pos) => {
            let (e, d) = rewritten_expr(engine, names, full, consts, *expr);
            (StmtValue::Let(id, Some(Box::new(e)), pos), d)
        },
        // { block }
        StmtValue::Block(block, pos) => rewritten_block(
            engine,
            names,
            full,
            consts,
            block,
            pos,
            preserve_result,
        ),
        // expr;
        StmtValue::Expr(expr) => {
            let (e, d) = rewritten_expr(engine, names, full, consts, *expr);
            (StmtValue::Expr(Box::new(e)), d)
        },
        // return expr;
        StmtValue::ReturnWithVal(Some(expr), is_return, pos) => {
            let (e, d) = rewritten_expr(engine, names, full, consts, *expr);
            (StmtValue::ReturnWithVal(Some(Box::new(e)), is_return, pos), d)
        },
        // All other statements - skip
        _ => (s, false),
    }
}

/// What a block with the given statements is rewritten to, and whether it
/// is marked as changed: each statement is rewritten, the list is tidied, and
/// what is left collapses. The block is marked where a statement is, where
/// the tidied list is shorter or longer, and where it holds one statement
/// or none.
pub open spec fn rewritten_block<H: Host>(
    engine: &Engine<H>,
    names: Seq<(Seq<char>, usize)>,
    full: bool,
    consts: Seq<(Seq<char>, Option<Value>)>,
    block: Seq<StmtValue>,
    pos: Position,
    preserve_result: bool,
) -> (StmtValue, bool)
    decreases block, block.len() + 1,
{
    let (mapped, _, d) = mapped_block(
        engine,
        names,
        full,
        consts,
        block,
        preserve_result,
        block.len() as int,
    );
    let t = tidied(mapped, preserve_result, pos);
    (collapsed(t, pos), d || t.len() != block.len() || t.len() <= 1)
}

/// The constants that a scope hands to the optimizer, after its `k` newest
/// entries were looked at, the newest first: each constant entry whose value
/// can be written as a constant expression.
pub open spec fn scope_consts(scope: Seq<EntryValue>, k: int) -> Seq<(Seq<char>, Option<Value>)>
    decreases k,
{
    if k <= 0 || k > scope.len() {
        Seq::empty()
    } else {
        let e = scope[scope.len() - k];
        if e.typ == EntryType::Constant && literal(e.value, Position::spec_none()).is_some() {
            scope_consts(scope, k - 1).push((e.name, Some(e.value)))
        } else {
            scope_consts(scope, k - 1)
        }
    }
}

/// What the first `n` statements of a script are rewritten to in one pass,
/// the constants known after them, and whether any of them is marked as
/// changed. A `const` stays and makes its value known to the statements after
/// it; every other statement is rewritten, its result kept if it is a `let`
/// or the last statement.
pub open spec fn pass<H: Host>(
    engine: &Engine<H>,
    names: Seq<(Seq<char>, usize)>,
    full: bool,
    consts: Seq<(Seq<char>, Option<Value>)>,
    stmts: Seq<StmtValue>,
    n: int,
) -> (Seq<StmtValue>, Seq<(Seq<char>, Option<Value>)>, bool)
    decreases n,
{
    if n <= 0 || n > stmts.len() {
        (Seq::empty(), consts, false)
    } else {
        let (done, known, d1) = pass(engine, names, full, consts, stmts, n - 1);
        match stmts[n - 1] {
            StmtValue::Const(name, e, _) => (
                done.push(stmts[n - 1]),
                match e.constant_value() {
                    Some(v) => if literal(v, e.position()).is_some() {
                        known.push((name, Some(v)))
                    } else {
                        known
                    },
                    None => known,
                },
                d1,
            ),
            _ => {
                let (s, d2) = rewritten_stmt(
                    engine,
                    names,
                    full,
                    known,
                    stmts[n - 1],
                    stmts[n - 1] is Let || n == stmts.len(),
                );
                (done.push(s), known, d1 || d2)
            },
        }
    }
}

/// The statements of a script after the last pass, tidied: the pure ones
/// dropped but for the last statement, and the last one dropped too if it
/// is a no-op that nothing stands before.
pub open spec fn cleaned(last: Seq<StmtValue>) -> Seq<StmtValue> {
    if last.len() == 0 {
        last
    } else {
        let rest = without_pure(last, last.len() - 1);
        if rest.len() == 0 && last.last() is Noop {
            rest
        } else {
            rest.push(last.last())
        }
    }
}

/// What the statements of a script come to after passes until a pass marks
/// nothing as changed, at most `rounds` passes after the first, and after
/// what the last pass gave was tidied.
pub open spec fn settled<H: Host>(
    engine: &Engine<H>,
    names: Seq<(Seq<char>, usize)>,
    full: bool,
    consts: Seq<(Seq<char>, Option<Value>)>,
    stmts: Seq<StmtValue>,
    rounds: nat,
) -> Seq<StmtValue>
    decreases rounds,
{
    let (out, _, changed) = pass(engine, names, full, consts, stmts, stmts.len() as int);
    if !changed || rounds == 0 {
        cleaned(out)
    } else {
        settled(engine, names, full, consts, out, (rounds - 1) as nat)
    }
}

/// What the optimizer makes of the statements of a script.
///
/// With no optimization the statements stay. Else they go through passes
/// until a pass marks nothing as changed, each with the constants of the scope
/// known from the start, and what the last pass gives is tidied.
pub open spec fn optimized<H: Host>(
    engine: &Engine<H>,
    names: Seq<(Seq<char>, usize)>,
    level: OptimizationLevel,
    scope: Seq<EntryValue>,
    stmts: Seq<StmtValue>,
) -> Seq<StmtValue> {
    if level == OptimizationLevel::Off {
        stmts
    } else {
        settled(
            engine,
            names,
            level == OptimizationLevel::Full,
            scope_consts(scope, scope.len() as int),
            stmts,
            u64::MAX as nat,
        )
    }
}

/// What the body of a function becomes once it was optimized as a script
/// of its own: a `return` at its end gives way to the value it returns.
pub open spec fn unwrapped(stmts: Seq<StmtValue>, pos: Position) -> StmtValue {
    if stmts.len() == 0 {
        StmtValue::Noop(pos)
    } else {
        match stmts.last() {
            // { return val; } -> val
            StmtValue::ReturnWithVal(Some(val), ReturnType::Return, _) => StmtValue::Expr(val),
            // { return; } -> ()
            StmtValue::ReturnWithVal(None, ReturnType::Return, p) => StmtValue::Expr(
                Box::new(ExprValue::Unit(p)),
            ),
            // All others
            s => s,
        }
    }
}

/// A function definition with its body optimized as a script of its own,
/// with no constants known. With no optimization the definition stays as it is.
pub open spec fn optimized_def<H: Host>(
    engine: &Engine<H>,
    names: Seq<(Seq<char>, usize)>,
    level: OptimizationLevel,
    def: FnDefValue,
) -> FnDefValue {
    if level == OptimizationLevel::Off {
        def
    } else {
        FnDefValue {
            body: unwrapped(
                optimized(engine, names, level, Seq::empty(), seq![def.body]),
                def.body.position(),
            ),
            ..def
        }
    }
}

/// The name and the number of parameters of each function definition.
pub open spec fn names_of(functions: Seq<FnDefValue>) -> Seq<(Seq<char>, usize)> {
    Seq::new(functions.len(), |i: int| (functions[i].name, functions[i].params.len() as usize))
}

/// The function definitions of a script, each with its body optimized.
pub open spec fn optimized_defs<H: Host>(
    engine: &Engine<H>,
    level: OptimizationLevel,
    functions: Seq<FnDefValue>,
) -> Seq<FnDefValue> {
    Seq::new(
        functions.len(),
        |i: int| optimized_def(engine, names_of(functions), level, functions[i]),
    )
}

/// The library made of the function definitions of a script, each with its
/// body optimized.
pub open spec fn optimized_lib<H: Host>(
    engine: &Engine<H>,
    level: OptimizationLevel,
    functions: Seq<FnDefValue>,
) -> Map<u64, FnDefValue> {
    lib_of(optimized_defs(engine, level, functions), functions.len() as int)
}

/// Is `ast` what the optimizer makes of the statements and the function
/// definitions of a script: the statements optimized with the constants of
/// the scope known, and the library made of the definitions with their
/// bodies optimized?
pub open spec fn ast_optimized<H: Host>(
    engine: &Engine<H>,
    scope: Seq<EntryValue>,
    statements: Seq<StmtValue>,
    functions: Seq<FnDefValue>,
    level: OptimizationLevel,
    ast: &AST,
) -> bool {
    &&& stmts_of(ast.statements@) == optimized(engine, names_of(functions), level, scope, statements)
    &&& ast.fn_lib@ == optimized_lib(engine, level, functions)
}

} // verus!
