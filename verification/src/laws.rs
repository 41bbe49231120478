//! What holds of the engine as a whole, proved from what its functions promise.

use vstd::prelude::*;
use crate::any::{Value, find_key, lemma_find_key_from, type_ids_of};
use crate::engine::{
    Engine, Host, find_in_packages, prop_of_getter, prop_of_setter, KEYWORD_TYPE_OF,
};
use crate::model::{
    ExprValue, FnDefValue, StmtValue, constant_values, lemma_constant_entries,
    lemma_constant_values, lemma_literal_value, literal,
};
use crate::packages::PackageLibrary;
use crate::parser::AST;
use crate::rewrite::{call_result, folded, never_folded};
use crate::result::ErrorValue;
use crate::scope::{EntryType, EntryValue, find_below};
use crate::semantics::{
    EntriesOutcome, ListOutcome, CallOutcome, Outcome, last_index, rest_indexes, returned, rewound,
    search,
};
use crate::target::TargetValue;
use crate::token::Position;
use crate::utils::{fn_def_hash, fn_hash};

verus! {

/// Determinism: two evaluations of the same script by the same engine in
/// the same scope end with the same result and leave the same scope.
pub proof fn law_evaluation_is_deterministic<H: Host>(
    engine: &Engine<H>,
    scope: Seq<EntryValue>,
    ast: &AST,
    first: Outcome,
    second: Outcome,
)
    requires
        first == engine.ast_outcome(scope, ast),
        second == engine.ast_outcome(scope, ast),
    ensures
        first.result == second.result,
        first.scope == second.scope,
{
}

/// Dispatch, first rank: where the script defines a function of the name
/// and the number of arguments, that function is run, whatever native
/// functions the engine and its packages hold.
pub proof fn law_script_function_first<H: Host>(
    engine: &Engine<H>,
    scope: Seq<EntryValue>,
    fn_lib: Map<u64, FnDefValue>,
    fn_name: Seq<char>,
    args: Seq<Value>,
    def_val: Option<Value>,
    pos: Position,
    level: nat,
)
    requires
        !engine.overflows(level),
        fn_lib.contains_key(fn_def_hash(fn_name, args.len())),
    ensures
        engine.call_outcome(scope, fn_lib, fn_name, args, def_val, pos, level)
            == engine.lib_call_outcome(
            scope,
            fn_lib,
            fn_lib[fn_def_hash(fn_name, args.len())],
            args,
            pos,
            level,
        ),
{
}

/// Dispatch, second rank: a native function registered with the engine
/// itself is found before any of a package.
pub proof fn law_engine_function_before_packages<H: Host>(engine: &Engine<H>, hash: u64)
    requires
        engine.functions@.contains_key(hash),
    ensures
        engine.find_native(hash) == Some(engine.functions@[hash]),
{
}

/// Dispatch, third rank: of the packages, the one loaded last is searched
/// first. After a package was loaded, a function that it holds is found in it,
/// unless the engine's own table holds one; a function that it does not hold
/// is found where it was found before.
pub proof fn law_newest_package_first<H: Host>(
    before: &Engine<H>,
    after: &Engine<H>,
    package: PackageLibrary,
    hash: u64,
)
    requires
        after.packages@ == seq![package] + before.packages@,
        after.functions == before.functions,
    ensures
        !after.functions@.contains_key(hash) && package.functions@.contains_key(hash)
            ==> after.find_native(hash) == Some(package.functions@[hash]),
        !package.functions@.contains_key(hash) ==> after.find_native(hash) == before.find_native(hash),
{
    if !package.functions@.contains_key(hash) {
        lemma_find_in_packages_shift(before.packages@, package, hash, 0);
    }
}

/// Searching the packages behind a new first package is searching them as they were.
pub proof fn lemma_find_in_packages_shift(
    packages: Seq<PackageLibrary>,
    package: PackageLibrary,
    hash: u64,
    from: int,
)
    requires
        0 <= from,
    ensures
        find_in_packages(seq![package] + packages, false, hash, from + 1) == find_in_packages(
            packages,
            false,
            hash,
            from,
        ),
    decreases packages.len() - from,
{
    let longer = seq![package] + packages;
    if from < packages.len() {
        assert(longer[from + 1] == packages[from]);
        lemma_find_in_packages_shift(packages, package, hash, from + 1);
    }
}

/// Rewinding: after any entries were pushed onto a scope, a rewind to a
/// size that the scope has reached leaves exactly that many entries, and
/// they are the entries that were there.
pub proof fn law_rewind_restores(scope: Seq<EntryValue>, pushed: Seq<EntryValue>, n: nat)
    requires
        n <= scope.len(),
    ensures
        rewound(scope + pushed, n).len() == n,
        rewound(scope + pushed, n) == scope.subrange(0, n as int),
{
    assert(rewound(scope + pushed, n) =~= scope.subrange(0, n as int));
}

/// Round trip at an indexed place: where a write of `v` at an index of a
/// value succeeds, a read at the same index of what the write left gives `v`.
pub proof fn law_write_then_read<H: Host>(
    engine: &Engine<H>,
    target: Value,
    idx: Value,
    v: Value,
    idx_pos: Position,
    set_pos: Position,
    op_pos: Position,
)
    requires
        engine.terminal(target, idx, idx_pos, set_pos, Seq::empty(), op_pos, Some(v)).result.is_ok(),
    ensures
        engine.terminal(
            engine.terminal(target, idx, idx_pos, set_pos, Seq::empty(), op_pos, Some(v)).target,
            idx,
            idx_pos,
            set_pos,
            Seq::empty(),
            op_pos,
            None,
        ).result == Ok::<(Value, bool), ErrorValue>((v, false)),
{
    match target {
        Value::ObjMap(entries) => {
            match idx {
                Value::Str(key) => {
                    lemma_find_key_from(entries, key, 0);
                    match find_key(entries, key) {
                        Some(j) => {
                            let after = entries.update(j, (entries[j].0, v));
                            lemma_first_key(after, key, j);
                        },
                        None => {
                            let grown = entries.push((key, Value::Unit));
                            let n = entries.len() as int;
                            lemma_first_key(grown, key, n);
                            let after = grown.update(n, (grown[n].0, v));
                            lemma_first_key(after, key, n);
                        },
                    }
                },
                _ => {},
            }
        },
        _ => {},
    }
}

/// The first entry of a key is found: where an entry has the key and none
/// before it has, the search gives that entry.
pub proof fn lemma_first_key(entries: Seq<(Seq<char>, Value)>, key: Seq<char>, j: int)
    requires
        0 <= j < entries.len(),
        entries[j].0 == key,
        forall|k: int| 0 <= k < j ==> entries[k].0 != key,
    ensures
        find_key(entries, key) == Some(j),
{
    lemma_find_key_from(entries, key, 0);
    match find_key(entries, key) {
        Some(i) => {
            if i < j {
                assert(entries[i].0 != key);
            }
            if j < i {
                assert(entries[j].0 == key);
            }
        },
        None => {
            assert(entries[j].0 == key);
        },
    }
}

/// Array access: an array of length `L` can be indexed by an integer `i`
/// exactly if `0 <= i < L`; in particular a negative index fails. Creating is
/// of no use there.
pub proof fn law_array_access<H: Host>(
    engine: &Engine<H>,
    items: Seq<Value>,
    i: i64,
    idx_pos: Position,
    op_pos: Position,
    create: bool,
)
    ensures
        engine.indexed(Value::Array(items), Value::Int(i), idx_pos, op_pos, create).0.is_ok() <==> 0
            <= i < items.len(),
        !(0 <= i < items.len()) ==> engine.indexed(
            Value::Array(items),
            Value::Int(i),
            idx_pos,
            op_pos,
            create,
        ).0 == Err::<TargetValue, ErrorValue>(
            ErrorValue::ErrorArrayBounds(items.len() as usize, i, idx_pos),
        ),
        engine.indexed(Value::Array(items), Value::Int(i), idx_pos, op_pos, create).1 == Value::Array(
            items,
        ),
{
}

/// Writing a character of a string is idempotent: a write of the
/// character that is there succeeds and leaves the string as it is.
pub proof fn law_same_character_write(s: Seq<char>, i: int, pos: Position)
    requires
        0 <= i < s.len(),
    ensures
        TargetValue::StringChar(i, s[i]).written(Value::Str(s), Value::Char(s[i]), pos) == (
            Ok::<(), ErrorValue>(()),
            Value::Str(s),
        ),
{
    assert(s.update(i, s[i]) =~= s);
}

/// Constants refuse assignment: an assignment to a variable that is found
/// as a constant fails with "assignment to constant" and leaves the scope as
/// it is.
pub proof fn law_constant_refuses_assignment<H: Host>(
    engine: &Engine<H>,
    scope: Seq<EntryValue>,
    always_search: bool,
    fn_lib: Map<u64, FnDefValue>,
    expr: ExprValue,
    v: Value,
    level: nat,
)
    requires
        expr matches ExprValue::Assignment(lhs, _, _) && (*lhs matches ExprValue::Variable(name, index, pos)
            && (search(
            scope,
            name,
            if always_search {
                None
            } else {
                index
            },
            pos,
        ) matches Ok(j) && scope[j].typ == EntryType::Constant)),
    ensures
        engine.assigned(scope, always_search, fn_lib, expr, v, level).result == Err::<Value, ErrorValue>(
            ErrorValue::ErrorAssignmentToConstant(expr->Assignment_0->Variable_0, expr->Assignment_2),
        ),
        engine.assigned(scope, always_search, fn_lib, expr, v, level).scope == scope,
{
}

/// Constants refuse writes through a chain: once what the right-hand side
/// of a chain needs was evaluated, a write through a chain that starts from
/// a variable found as a constant fails with "assignment to constant" and
/// leaves the scope as that evaluation left it.
pub proof fn law_constant_refuses_chain_write<H: Host>(
    engine: &Engine<H>,
    scope: Seq<EntryValue>,
    always_search: bool,
    fn_lib: Map<u64, FnDefValue>,
    chain: ExprValue,
    op_pos: Position,
    level: nat,
    v: Value,
)
    requires
        chain is Index || chain is Dot,
        ({
            let lhs = if chain is Index {
                *chain->Index_0
            } else {
                *chain->Dot_0
            };
            let rhs = if chain is Index {
                *chain->Index_1
            } else {
                *chain->Dot_1
            };
            let ix = engine.indexes_outcome(scope, always_search, fn_lib, rhs, Seq::empty(), level);
            ix.result.is_ok() && (lhs matches ExprValue::Variable(name, index, pos) && (search(
                ix.scope,
                name,
                if ix.always_search {
                    None
                } else {
                    index
                },
                pos,
            ) matches Ok(j) && ix.scope[j].typ == EntryType::Constant))
        }),
    ensures
        ({
            let lhs = if chain is Index {
                *chain->Index_0
            } else {
                *chain->Dot_0
            };
            let rhs = if chain is Index {
                *chain->Index_1
            } else {
                *chain->Dot_1
            };
            let ix = engine.indexes_outcome(scope, always_search, fn_lib, rhs, Seq::empty(), level);
            let out = engine.chain_outcome(scope, always_search, fn_lib, chain, op_pos, level, Some(v));
            out.result == Err::<Value, ErrorValue>(
                ErrorValue::ErrorAssignmentToConstant(lhs->Variable_0, lhs->Variable_2),
            ) && out.scope == ix.scope
        }),
{
}

/// The bound on the call stack: a call at a level beyond the engine's
/// limit fails with "stack overflow", whatever is called, and runs nothing.
pub proof fn law_call_too_deep_overflows<H: Host>(
    engine: &Engine<H>,
    scope: Seq<EntryValue>,
    fn_lib: Map<u64, FnDefValue>,
    fn_name: Seq<char>,
    args: Seq<Value>,
    def_val: Option<Value>,
    pos: Position,
    level: nat,
)
    requires
        level > engine.max_call_stack_depth,
    ensures
        engine.call_outcome(scope, fn_lib, fn_name, args, def_val, pos, level) == (CallOutcome {
            result: Err(ErrorValue::ErrorStackOverflow(pos)),
            args,
            scope,
        }),
{
}

/// Does a walk along a chain pass through places only: elements of arrays
/// and entries of object maps that are there, up to the end of the chain,
/// with no method call, getter or setter on the way?
pub open spec fn walks_places<H: Host>(
    engine: &Engine<H>,
    target: Value,
    rhs: ExprValue,
    idx_values: Seq<Value>,
    is_index: bool,
    op_pos: Position,
) -> bool
    decreases rhs,
{
    let idx_val = last_index(idx_values);
    let rest = rest_indexes(idx_values);
    if is_index {
        match rhs {
            ExprValue::Dot(idx, sub, pos) => match engine.indexed(
                target,
                idx_val,
                idx.position(),
                op_pos,
                false,
            ).0 {
                Ok(TargetValue::Place(k)) => walks_places(
                    engine,
                    TargetValue::Place(k).content(target),
                    *sub,
                    rest,
                    false,
                    pos,
                ),
                _ => false,
            },
            ExprValue::Index(idx, sub, pos) => match engine.indexed(
                target,
                idx_val,
                idx.position(),
                op_pos,
                false,
            ).0 {
                Ok(TargetValue::Place(k)) => walks_places(
                    engine,
                    TargetValue::Place(k).content(target),
                    *sub,
                    rest,
                    true,
                    pos,
                ),
                _ => false,
            },
            _ => true,
        }
    } else {
        match rhs {
            ExprValue::Property(_, _) => target is ObjMap,
            ExprValue::Dot(lhs, sub, pos) => target is ObjMap && (*lhs matches ExprValue::Property(id, id_pos)
                && (engine.indexed(target, Value::Str(id), id_pos, op_pos, false).0 matches Ok(
                TargetValue::Place(k),
            ) && walks_places(
                engine,
                TargetValue::Place(k).content(target),
                *sub,
                rest,
                false,
                pos,
            ))),
            ExprValue::Index(lhs, sub, pos) => target is ObjMap && (*lhs matches ExprValue::Property(id, id_pos)
                && (engine.indexed(target, Value::Str(id), id_pos, op_pos, false).0 matches Ok(
                TargetValue::Place(k),
            ) && walks_places(
                engine,
                TargetValue::Place(k).content(target),
                *sub,
                rest,
                true,
                pos,
            ))),
            _ => false,
        }
    }
}

/// A place that took a value is found again where it was, and holds the value.
pub proof fn lemma_place_found_again<H: Host>(
    engine: &Engine<H>,
    target: Value,
    idx: Value,
    idx_pos: Position,
    op_pos: Position,
    k: int,
    v: Value,
)
    requires
        engine.indexed(target, idx, idx_pos, op_pos, false).0 == Ok::<TargetValue, ErrorValue>(
            TargetValue::Place(k),
        ),
    ensures
        TargetValue::Place(k).fits(target),
        engine.indexed(TargetValue::Place(k).put(target, v), idx, idx_pos, op_pos, false).0 == Ok::<
            TargetValue,
            ErrorValue,
        >(TargetValue::Place(k)),
        engine.indexed(TargetValue::Place(k).put(target, v), idx, idx_pos, op_pos, false).1
            == TargetValue::Place(k).put(target, v),
        TargetValue::Place(k).content(TargetValue::Place(k).put(target, v)) == v,
{
    match target {
        Value::ObjMap(entries) => {
            match idx {
                Value::Str(key) => {
                    lemma_find_key_from(entries, key, 0);
                    lemma_first_key(entries.update(k, (entries[k].0, v)), key, k);
                },
                _ => {},
            }
        },
        _ => {},
    }
}

/// Round trip along a chain: where a walk passes through places only, and
/// a write of `v` at its end succeeds, a read along the same chain of what
/// the write left gives `v`.
pub proof fn law_chain_round_trip<H: Host>(
    engine: &Engine<H>,
    fn_lib: Map<u64, FnDefValue>,
    target: Value,
    rhs: ExprValue,
    idx_values: Seq<Value>,
    is_index: bool,
    op_pos: Position,
    level: nat,
    v: Value,
)
    requires
        walks_places(engine, target, rhs, idx_values, is_index, op_pos),
        engine.helper_outcome(fn_lib, target, rhs, idx_values, is_index, op_pos, level, Some(v)).result.is_ok(),
    ensures
        engine.helper_outcome(
            fn_lib,
            engine.helper_outcome(fn_lib, target, rhs, idx_values, is_index, op_pos, level, Some(v)).target,
            rhs,
            idx_values,
            is_index,
            op_pos,
            level,
            None,
        ).result == Ok::<(Value, bool), ErrorValue>((v, false)),
    decreases rhs,
{
    reveal_with_fuel(Engine::helper_outcome, 3);
    let idx_val = last_index(idx_values);
    let rest = rest_indexes(idx_values);
    let written = engine.helper_outcome(fn_lib, target, rhs, idx_values, is_index, op_pos, level, Some(v));
    if is_index {
        match rhs {
            ExprValue::Dot(idx, sub, pos) => {
                let k = engine.indexed(target, idx_val, idx.position(), op_pos, false).0->Ok_0->Place_0;
                let inner = TargetValue::Place(k).content(target);
                law_chain_round_trip(engine, fn_lib, inner, *sub, rest, false, pos, level, v);
                let left = engine.helper_outcome(fn_lib, inner, *sub, rest, false, pos, level, Some(v)).target;
                lemma_place_found_again(engine, target, idx_val, idx.position(), op_pos, k, left);
            },
            ExprValue::Index(idx, sub, pos) => {
                let k = engine.indexed(target, idx_val, idx.position(), op_pos, false).0->Ok_0->Place_0;
                let inner = TargetValue::Place(k).content(target);
                law_chain_round_trip(engine, fn_lib, inner, *sub, rest, true, pos, level, v);
                let left = engine.helper_outcome(fn_lib, inner, *sub, rest, true, pos, level, Some(v)).target;
                lemma_place_found_again(engine, target, idx_val, idx.position(), op_pos, k, left);
            },
            _ => {
                law_write_then_read(
                    engine,
                    target,
                    idx_val,
                    v,
                    rhs.position(),
                    rhs.position(),
                    op_pos,
                );
            },
        }
    } else {
        match rhs {
            ExprValue::Property(id, pos) => {
                law_write_then_read(engine, target, Value::Str(id), v, pos, rhs.position(), op_pos);
                assert(written.target is ObjMap);
            },
            ExprValue::Dot(lhs, sub, pos) => {
                let id = lhs->Property_0;
                let id_pos = lhs->Property_1;
                let k = engine.indexed(target, Value::Str(id), id_pos, op_pos, false).0->Ok_0->Place_0;
                let inner = TargetValue::Place(k).content(target);
                law_chain_round_trip(engine, fn_lib, inner, *sub, rest, false, pos, level, v);
                let left = engine.helper_outcome(fn_lib, inner, *sub, rest, false, pos, level, Some(v)).target;
                lemma_place_found_again(engine, target, Value::Str(id), id_pos, op_pos, k, left);
            },
            ExprValue::Index(lhs, sub, pos) => {
                let id = lhs->Property_0;
                let id_pos = lhs->Property_1;
                let k = engine.indexed(target, Value::Str(id), id_pos, op_pos, false).0->Ok_0->Place_0;
                let inner = TargetValue::Place(k).content(target);
                law_chain_round_trip(engine, fn_lib, inner, *sub, rest, true, pos, level, v);
                let left = engine.helper_outcome(fn_lib, inner, *sub, rest, true, pos, level, Some(v)).target;
                lemma_place_found_again(engine, target, Value::Str(id), id_pos, op_pos, k, left);
            },
            _ => {},
        }
    }
}

/// A stack overflow passes a call boundary: what a function's body hands
/// to its caller is still a stack overflow, now at the position of the call.
pub proof fn law_overflow_passes_call_boundary(e: ErrorValue, pos: Position)
    requires
        e is ErrorStackOverflow,
    ensures
        returned(Err(e), pos) == Err::<Value, ErrorValue>(ErrorValue::ErrorStackOverflow(pos)),
{
}

/// A rewrite that keeps the meaning: an `if` whose guard is the constant
/// `true` ends as its first branch does, and one whose guard is the
/// constant `false` ends as its `else` branch does, or as a no-op where it has
/// none.
pub proof fn law_constant_guard_of_if<H: Host>(
    engine: &Engine<H>,
    scope: Seq<EntryValue>,
    always_search: bool,
    fn_lib: Map<u64, FnDefValue>,
    stmt: StmtValue,
    level: nat,
)
    requires
        stmt matches StmtValue::IfThenElse(guard, _, _) && (*guard is True || *guard is False),
    ensures
        engine.stmt_outcome(scope, always_search, fn_lib, stmt, level) == (match stmt {
            StmtValue::IfThenElse(guard, if_body, else_body) => if *guard is True {
                engine.stmt_outcome(scope, always_search, fn_lib, *if_body, level)
            } else {
                match else_body {
                    Some(body) => engine.stmt_outcome(scope, always_search, fn_lib, *body, level),
                    None => Outcome { result: Ok(Value::Unit), scope, always_search },
                }
            },
            _ => Outcome { result: Ok(Value::Unit), scope, always_search },
        }),
{
    reveal_with_fuel(Engine::stmt_outcome, 2);
}

/// A rewrite that keeps the meaning: a `while` whose guard is the constant
/// `false` ends as a no-op does.
pub proof fn law_while_false_is_a_no_op<H: Host>(
    engine: &Engine<H>,
    scope: Seq<EntryValue>,
    always_search: bool,
    fn_lib: Map<u64, FnDefValue>,
    stmt: StmtValue,
    level: nat,
)
    requires
        stmt matches StmtValue::While(guard, _) && *guard is False,
    ensures
        engine.stmt_outcome(scope, always_search, fn_lib, stmt, level) == (Outcome {
            result: Ok(Value::Unit),
            scope,
            always_search,
        }),
{
    reveal_with_fuel(Engine::stmt_outcome, 3);
}

/// A rewrite that keeps the meaning: a `loop` whose body is a lone
/// `break` ends as a no-op does, where the engine allows a loop one round at least.
pub proof fn law_lone_break_ends_loop<H: Host>(
    engine: &Engine<H>,
    scope: Seq<EntryValue>,
    always_search: bool,
    fn_lib: Map<u64, FnDefValue>,
    stmt: StmtValue,
    level: nat,
)
    requires
        stmt matches StmtValue::Loop(body) && *body is Break,
        engine.max_loop_rounds > 0,
    ensures
        engine.stmt_outcome(scope, always_search, fn_lib, stmt, level) == (Outcome {
            result: Ok(Value::Unit),
            scope,
            always_search,
        }),
{
    reveal_with_fuel(Engine::stmt_outcome, 3);
}

/// A rewrite that keeps the meaning: `false && e` ends as `false` does and
/// `true || e` as `true` does, whatever `e` is: `e` is not evaluated.
pub proof fn law_short_circuit_of_constants<H: Host>(
    engine: &Engine<H>,
    scope: Seq<EntryValue>,
    always_search: bool,
    fn_lib: Map<u64, FnDefValue>,
    expr: ExprValue,
    level: nat,
)
    requires
        (expr matches ExprValue::And(lhs, _, _) && *lhs is False) || (expr matches ExprValue::Or(lhs, _, _)
            && *lhs is True),
    ensures
        engine.expr_outcome(scope, always_search, fn_lib, expr, level) == (Outcome {
            result: Ok(Value::Bool(expr is Or)),
            scope,
            always_search,
        }),
{
    reveal_with_fuel(Engine::expr_outcome, 3);
}

/// A rewrite that keeps the meaning: a statement expression that holds a
/// no-op ends as unit does.
pub proof fn law_empty_statement_expression<H: Host>(
    engine: &Engine<H>,
    scope: Seq<EntryValue>,
    always_search: bool,
    fn_lib: Map<u64, FnDefValue>,
    expr: ExprValue,
    level: nat,
)
    requires
        expr matches ExprValue::Stmt(stmt, _) && *stmt is Noop,
    ensures
        engine.expr_outcome(scope, always_search, fn_lib, expr, level) == (Outcome {
            result: Ok(Value::Unit),
            scope,
            always_search,
        }),
{
    reveal_with_fuel(Engine::expr_outcome, 2);
}

/// A rewrite that keeps the meaning: a string literal indexed by an
/// integer literal within its bounds ends as the character there does.
pub proof fn law_string_literal_index<H: Host>(
    engine: &Engine<H>,
    scope: Seq<EntryValue>,
    always_search: bool,
    fn_lib: Map<u64, FnDefValue>,
    expr: ExprValue,
    level: nat,
)
    requires
        expr matches ExprValue::Index(lhs, rhs, _) && (*lhs matches ExprValue::StringConstant(s, _) && (
        *rhs matches ExprValue::IntegerConstant(i, _) && 0 <= i < s.len())),
    ensures
        engine.expr_outcome(scope, always_search, fn_lib, expr, level) == (Outcome {
            result: Ok(
                Value::Char(
                    expr->Index_0->StringConstant_0[expr->Index_1->IntegerConstant_0 as int],
                ),
            ),
            scope,
            always_search,
        }),
{
    reveal_with_fuel(Engine::expr_outcome, 5);
    let rhs = *expr->Index_1;
    let ix = engine.indexes_outcome(scope, always_search, fn_lib, rhs, Seq::empty(), level);
    let i = expr->Index_1->IntegerConstant_0;
    assert(ix.result == Ok::<Seq<Value>, ErrorValue>(Seq::<Value>::empty().push(Value::Int(i))));
    assert(last_index(Seq::<Value>::empty().push(Value::Int(i))) == Value::Int(i));
}

/// A rewrite that keeps the meaning: a string or character literal `in` a
/// string literal ends as the constant does that says whether it occurs there.
pub proof fn law_membership_of_literals<H: Host>(
    engine: &Engine<H>,
    scope: Seq<EntryValue>,
    always_search: bool,
    fn_lib: Map<u64, FnDefValue>,
    expr: ExprValue,
    level: nat,
)
    requires
        expr matches ExprValue::In(lhs, rhs, _) && (*rhs is StringConstant && (*lhs is StringConstant
            || *lhs is CharConstant)),
    ensures
        engine.expr_outcome(scope, always_search, fn_lib, expr, level) == (Outcome {
            result: Ok(
                Value::Bool(
                    crate::text::occurs_in(
                        match *expr->In_0 {
                            ExprValue::StringConstant(l, _) => l,
                            ExprValue::CharConstant(c, _) => seq![c],
                            _ => Seq::empty(),
                        },
                        expr->In_1->StringConstant_0,
                    ),
                ),
            ),
            scope,
            always_search,
        }),
{
    reveal_with_fuel(Engine::expr_outcome, 3);
}

/// Constants evaluate to their values: the evaluation of an expression
/// that has a constant value gives that value and leaves the scope and the
/// search flag as they are.
pub proof fn law_constant_evaluates<H: Host>(
    engine: &Engine<H>,
    scope: Seq<EntryValue>,
    always_search: bool,
    fn_lib: Map<u64, FnDefValue>,
    expr: ExprValue,
    level: nat,
)
    requires
        expr.constant_value().is_some(),
    ensures
        engine.expr_outcome(scope, always_search, fn_lib, expr, level) == (Outcome {
            result: Ok(expr.constant_value().unwrap()),
            scope,
            always_search,
        }),
    decreases expr, 1int,
{
    reveal_with_fuel(Engine::expr_outcome, 2);
    match expr {
        ExprValue::Array(items, _) => {
            lemma_constant_values(items, items.len() as int);
            assert forall|i: int| 0 <= i < items.len() implies (#[trigger] items[i]).constant_value().is_some() by {
            }
            lemma_constants_evaluate(engine, scope, always_search, fn_lib, items, 0, Seq::empty(), level);
            let values = Seq::new(
                (items.len() - 0) as nat,
                |k: int| items[0 + k].constant_value().unwrap(),
            );
            assert(Seq::<Value>::empty() + values =~= expr.constant_value().unwrap()->Array_0);
        },
        ExprValue::ObjMap(items, _) => {
            lemma_constant_entries(items, items.len() as int);
            assert forall|i: int| 0 <= i < items.len() implies (#[trigger] items[i]).1.constant_value().is_some() by {
            }
            lemma_constant_items_evaluate(
                engine,
                scope,
                always_search,
                fn_lib,
                items,
                0,
                Seq::empty(),
                level,
            );
            let entries = Seq::new(
                (items.len() - 0) as nat,
                |k: int| (items[0 + k].0, items[0 + k].1.constant_value().unwrap()),
            );
            assert(Seq::<(Seq<char>, Value)>::empty() + entries
                =~= expr.constant_value().unwrap()->ObjMap_0);
        },
        _ => {},
    }
}

/// The evaluation of a list of expressions that have constant values, from
/// `from` on, gives `acc` followed by their values, and changes nothing.
pub proof fn lemma_constants_evaluate<H: Host>(
    engine: &Engine<H>,
    scope: Seq<EntryValue>,
    always_search: bool,
    fn_lib: Map<u64, FnDefValue>,
    items: Seq<ExprValue>,
    from: int,
    acc: Seq<Value>,
    level: nat,
)
    requires
        forall|i: int| 0 <= i < items.len() ==> (#[trigger] items[i]).constant_value().is_some(),
        0 <= from <= items.len(),
    ensures
        engine.exprs_outcome(scope, always_search, fn_lib, items, from, acc, level) == (ListOutcome {
            result: Ok(
                acc + Seq::new(
                    (items.len() - from) as nat,
                    |k: int| items[from + k].constant_value().unwrap(),
                ),
            ),
            scope,
            always_search,
        }),
    decreases items, items.len() - from,
{
    reveal_with_fuel(Engine::exprs_outcome, 2);
    let rest = Seq::new(
        (items.len() - from) as nat,
        |k: int| items[from + k].constant_value().unwrap(),
    );
    if from < items.len() {
        law_constant_evaluates(engine, scope, always_search, fn_lib, items[from], level);
        let v = items[from].constant_value().unwrap();
        lemma_constants_evaluate(engine, scope, always_search, fn_lib, items, from + 1, acc.push(v), level);
        let shorter = Seq::new(
            (items.len() - (from + 1)) as nat,
            |k: int| items[from + 1 + k].constant_value().unwrap(),
        );
        assert(acc.push(v) + shorter =~= acc + rest);
    } else {
        assert(acc + rest =~= acc);
    }
}

/// The evaluation of the entries of an object map literal whose
/// expressions have constant values, from `from` on, gives `acc` followed by
/// the keys with their values, and changes nothing.
pub proof fn lemma_constant_items_evaluate<H: Host>(
    engine: &Engine<H>,
    scope: Seq<EntryValue>,
    always_search: bool,
    fn_lib: Map<u64, FnDefValue>,
    items: Seq<(Seq<char>, ExprValue, Position)>,
    from: int,
    acc: Seq<(Seq<char>, Value)>,
    level: nat,
)
    requires
        forall|i: int| 0 <= i < items.len() ==> (#[trigger] items[i]).1.constant_value().is_some(),
        0 <= from <= items.len(),
    ensures
        engine.items_outcome(scope, always_search, fn_lib, items, from, acc, level) == (EntriesOutcome {
            result: Ok(
                acc + Seq::new(
                    (items.len() - from) as nat,
                    |k: int| (items[from + k].0, items[from + k].1.constant_value().unwrap()),
                ),
            ),
            scope,
            always_search,
        }),
    decreases items, items.len() - from,
{
    reveal_with_fuel(Engine::items_outcome, 2);
    let rest = Seq::new(
        (items.len() - from) as nat,
        |k: int| (items[from + k].0, items[from + k].1.constant_value().unwrap()),
    );
    if from < items.len() {
        law_constant_evaluates(engine, scope, always_search, fn_lib, items[from].1, level);
        let v = items[from].1.constant_value().unwrap();
        lemma_constant_items_evaluate(
            engine,
            scope,
            always_search,
            fn_lib,
            items,
            from + 1,
            acc.push((items[from].0, v)),
            level,
        );
        let shorter = Seq::new(
            (items.len() - (from + 1)) as nat,
            |k: int| (items[from + 1 + k].0, items[from + 1 + k].1.constant_value().unwrap()),
        );
        assert(acc.push((items[from].0, v)) + shorter =~= acc + rest);
    } else {
        assert(acc + rest =~= acc);
    }
}

/// Calling ahead of time keeps the meaning: where a call has constant
/// arguments and the optimizer's shortcut gives a value for it, the
/// evaluation of the call gives that value and changes nothing. This holds
/// of a call within the bound of the call stack, of a function that the
/// script does not define and that is no keyword, no getter and no setter;
/// for `type_of` with one argument it holds where no native function
/// answers to the name.
pub proof fn law_call_ahead_of_time<H: Host>(
    engine: &Engine<H>,
    scope: Seq<EntryValue>,
    always_search: bool,
    fn_lib: Map<u64, FnDefValue>,
    expr: ExprValue,
    v: Value,
    level: nat,
)
    requires
        expr matches ExprValue::FnCall(id, args, def_val, pos) && ({
            &&& !never_folded(id)
            &&& !fn_lib.contains_key(fn_def_hash(id, args.len() as nat))
            &&& constant_values(args, args.len() as int) matches Some(values) && ({
                &&& folded(engine, id, values, def_val, pos) == Some(v)
                &&& engine.find_native(fn_hash(id, type_ids_of(values))) is None ==> prop_of_getter(
                    id,
                ) is None && prop_of_setter(id) is None
                &&& id == KEYWORD_TYPE_OF@ && args.len() == 1 ==> engine.find_native(
                    fn_hash(id, type_ids_of(values)),
                ) is None && !engine.overridden(fn_lib, KEYWORD_TYPE_OF@)
            })
        }),
        !engine.overflows(level),
    ensures
        engine.expr_outcome(scope, always_search, fn_lib, expr, level) == (Outcome {
            result: Ok(v),
            scope,
            always_search,
        }),
{
    reveal_with_fuel(Engine::expr_outcome, 4);
    match expr {
        ExprValue::FnCall(id, args, def_val, pos) => {
            lemma_constant_values(args, args.len() as int);
            assert forall|i: int| 0 <= i < args.len() implies (#[trigger] args[i]).constant_value().is_some() by {
            }
            lemma_constants_evaluate(engine, scope, always_search, fn_lib, args, 0, Seq::empty(), level);
            let values = constant_values(args, args.len() as int).unwrap();
            let evaluated = Seq::new(
                (args.len() - 0) as nat,
                |k: int| args[0 + k].constant_value().unwrap(),
            );
            assert(Seq::<Value>::empty() + evaluated =~= values);
        },
        _ => {},
    }
}

/// A call made ahead of time is replaced by an expression of the same
/// meaning: where the optimizer puts a constant expression in the place of a
/// call, the evaluation of that expression gives what the evaluation of the
/// call gives. This holds of the calls of which the law before this one holds.
pub proof fn law_replaced_call_evaluates_alike<H: Host>(
    engine: &Engine<H>,
    scope: Seq<EntryValue>,
    always_search: bool,
    fn_lib: Map<u64, FnDefValue>,
    expr: ExprValue,
    replaced: ExprValue,
    level: nat,
)
    requires
        expr matches ExprValue::FnCall(id, args, def_val, pos) && ({
            &&& !never_folded(id)
            &&& !fn_lib.contains_key(fn_def_hash(id, args.len() as nat))
            &&& call_result(engine, id, args, def_val, pos) == Some(replaced)
            &&& constant_values(args, args.len() as int) matches Some(values) && ({
                &&& engine.find_native(fn_hash(id, type_ids_of(values))) is None ==> prop_of_getter(
                    id,
                ) is None && prop_of_setter(id) is None
                &&& id == KEYWORD_TYPE_OF@ && args.len() == 1 ==> engine.find_native(
                    fn_hash(id, type_ids_of(values)),
                ) is None && !engine.overridden(fn_lib, KEYWORD_TYPE_OF@)
            })
        }),
        !engine.overflows(level),
    ensures
        engine.expr_outcome(scope, always_search, fn_lib, replaced, level) == engine.expr_outcome(
            scope,
            always_search,
            fn_lib,
            expr,
            level,
        ),
{
    broadcast use crate::model::group_tree_views;

    match expr {
        ExprValue::FnCall(id, args, def_val, pos) => {
            let values = constant_values(args, args.len() as int).unwrap();
            let v = folded(engine, id, values, def_val, pos).unwrap();
            lemma_literal_value(v, pos);
            law_constant_evaluates(engine, scope, always_search, fn_lib, replaced, level);
            law_call_ahead_of_time(engine, scope, always_search, fn_lib, expr, v, level);
        },
        _ => {},
    }
}

/// Putting the value of a constant in the place of its name keeps the
/// meaning: where a variable is found in the scope, the constant expression
/// that the value found is written as evaluates to what the variable
/// evaluates to.
pub proof fn law_propagated_constant_evaluates_alike<H: Host>(
    engine: &Engine<H>,
    scope: Seq<EntryValue>,
    always_search: bool,
    fn_lib: Map<u64, FnDefValue>,
    variable: ExprValue,
    replaced: ExprValue,
    level: nat,
)
    requires
        variable matches ExprValue::Variable(name, index, pos) && (search(
            scope,
            name,
            if always_search {
                None
            } else {
                index
            },
            pos,
        ) matches Ok(j) && literal(scope[j].value, pos) == Some(replaced)),
    ensures
        engine.expr_outcome(scope, always_search, fn_lib, replaced, level) == engine.expr_outcome(
            scope,
            always_search,
            fn_lib,
            variable,
            level,
        ),
{
    match variable {
        ExprValue::Variable(name, index, pos) => {
            let j = search(
                scope,
                name,
                if always_search {
                    None
                } else {
                    index
                },
                pos,
            )->Ok_0;
            lemma_literal_value(scope[j].value, pos);
            law_constant_evaluates(engine, scope, always_search, fn_lib, replaced, level);
        },
        _ => {},
    }
}

/// The index values that the right-hand side of a chain needs, added to
/// `acc`, where the chain is made of properties and indexes alone and every
/// index is an expression with a constant value; nothing for any other chain.
pub open spec fn constant_indexes(rhs: ExprValue, acc: Seq<Value>) -> Option<Seq<Value>>
    decreases rhs,
{
    match rhs {
        ExprValue::Property(_, _) => Some(acc.push(Value::Unit)),
        ExprValue::FnCall(_, _, _, _) => None,
        ExprValue::Index(lhs, sub, _) => match (
            if *lhs is Property {
                Some(Value::Unit)
            } else {
                lhs.constant_value()
            },
            constant_indexes(*sub, acc),
        ) {
            (Some(lv), Some(vs)) => Some(vs.push(lv)),
            _ => None,
        },
        ExprValue::Dot(lhs, sub, _) => match (
            if *lhs is Property {
                Some(Value::Unit)
            } else {
                lhs.constant_value()
            },
            constant_indexes(*sub, acc),
        ) {
            (Some(lv), Some(vs)) => Some(vs.push(lv)),
            _ => None,
        },
        other => match other.constant_value() {
            Some(v) => Some(acc.push(v)),
            None => None,
        },
    }
}

/// Where every index of a chain is a constant, evaluating what its
/// right-hand side needs gives those constants and changes nothing.
pub proof fn lemma_constant_indexes_evaluate<H: Host>(
    engine: &Engine<H>,
    scope: Seq<EntryValue>,
    always_search: bool,
    fn_lib: Map<u64, FnDefValue>,
    rhs: ExprValue,
    acc: Seq<Value>,
    level: nat,
)
    requires
        constant_indexes(rhs, acc).is_some(),
    ensures
        engine.indexes_outcome(scope, always_search, fn_lib, rhs, acc, level) == (ListOutcome {
            result: Ok(constant_indexes(rhs, acc).unwrap()),
            scope,
            always_search,
        }),
    decreases rhs,
{
    reveal_with_fuel(Engine::indexes_outcome, 3);
    match rhs {
        ExprValue::Property(_, _) => {},
        ExprValue::FnCall(_, _, _, _) => {},
        ExprValue::Index(lhs, sub, _) => {
            if !(*lhs is Property) {
                law_constant_evaluates(engine, scope, always_search, fn_lib, *lhs, level);
            }
            lemma_constant_indexes_evaluate(engine, scope, always_search, fn_lib, *sub, acc, level);
        },
        ExprValue::Dot(lhs, sub, _) => {
            if !(*lhs is Property) {
                law_constant_evaluates(engine, scope, always_search, fn_lib, *lhs, level);
            }
            lemma_constant_indexes_evaluate(engine, scope, always_search, fn_lib, *sub, acc, level);
        },
        other => {
            law_constant_evaluates(engine, scope, always_search, fn_lib, other, level);
        },
    }
}

/// A lookup goes by the names alone: where two scopes hold the same names in
/// the same order, a name is found at the same position in both.
pub proof fn lemma_lookup_by_names(a: Seq<EntryValue>, b: Seq<EntryValue>, name: Seq<char>, upto: int)
    requires
        a.len() == b.len(),
        forall|i: int| 0 <= i < a.len() ==> (#[trigger] a[i]).name == b[i].name,
    ensures
        find_below(a, name, upto) == find_below(b, name, upto),
    decreases upto,
{
    if 0 < upto <= a.len() {
        assert(a[upto - 1].name == b[upto - 1].name);
        if a[upto - 1].name != name {
            lemma_lookup_by_names(a, b, name, upto - 1);
        }
    }
}

/// Round trip of an assignment through a chain: where a chain starts from
/// a variable, every index of it is a constant and the walk passes through
/// places only, a write of `v` that succeeds is followed by a read of `v`.
pub proof fn law_assignment_round_trip<H: Host>(
    engine: &Engine<H>,
    scope: Seq<EntryValue>,
    always_search: bool,
    fn_lib: Map<u64, FnDefValue>,
    chain: ExprValue,
    op_pos: Position,
    level: nat,
    v: Value,
)
    requires
        chain is Index || chain is Dot,
        ({
            let lhs = if chain is Index {
                *chain->Index_0
            } else {
                *chain->Dot_0
            };
            let rhs = if chain is Index {
                *chain->Index_1
            } else {
                *chain->Dot_1
            };
            &&& constant_indexes(rhs, Seq::empty()) is Some
            &&& lhs matches ExprValue::Variable(name, index, pos) && (search(
                scope,
                name,
                if always_search {
                    None
                } else {
                    index
                },
                pos,
            ) matches Ok(j) && walks_places(
                engine,
                scope[j].value,
                rhs,
                constant_indexes(rhs, Seq::empty()).unwrap(),
                chain is Index,
                op_pos,
            ))
        }),
        engine.chain_outcome(scope, always_search, fn_lib, chain, op_pos, level, Some(v)).result.is_ok(),
    ensures
        ({
            let written = engine.chain_outcome(scope, always_search, fn_lib, chain, op_pos, level, Some(v));
            engine.chain_outcome(
                written.scope,
                written.always_search,
                fn_lib,
                chain,
                op_pos,
                level,
                None,
            ).result == Ok::<Value, ErrorValue>(v)
        }),
{
    reveal_with_fuel(Engine::chain_outcome, 2);
    let lhs = if chain is Index {
        *chain->Index_0
    } else {
        *chain->Dot_0
    };
    let rhs = if chain is Index {
        *chain->Index_1
    } else {
        *chain->Dot_1
    };
    let name = lhs->Variable_0;
    let index = lhs->Variable_1;
    let pos = lhs->Variable_2;
    let idx_values = constant_indexes(rhs, Seq::empty()).unwrap();
    let looked = if always_search {
        None
    } else {
        index
    };
    let j = search(scope, name, looked, pos)->Ok_0;
    lemma_constant_indexes_evaluate(engine, scope, always_search, fn_lib, rhs, Seq::empty(), level);
    crate::scope::law_lookup_finds_newest(scope, name, scope.len() as int);
    let h = engine.helper_outcome(fn_lib, scope[j].value, rhs, idx_values, chain is Index, op_pos, level, Some(v));
    let after = scope.update(j, EntryValue { value: h.target, ..scope[j] });
    lemma_constant_indexes_evaluate(engine, after, always_search, fn_lib, rhs, Seq::empty(), level);
    lemma_lookup_by_names(scope, after, name, scope.len() as int);
    law_chain_round_trip(
        engine,
        fn_lib,
        scope[j].value,
        rhs,
        idx_values,
        chain is Index,
        op_pos,
        level,
        v,
    );
}

} // verus!
