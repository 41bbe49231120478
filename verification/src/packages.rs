//! Packages: bundles of native functions and iterators that an engine loads.

use vstd::prelude::*;
use std::collections::HashMap;
use crate::any::{
    Dynamic, Value, values_of, TYPE_ID_ARRAY, TYPE_ID_BOOL, TYPE_ID_CHAR, TYPE_ID_INT,
    TYPE_ID_STRING,
};
use crate::engine::{Engine, Host, KEYWORD_DEBUG, KEYWORD_PRINT};
use crate::model::Script;
use crate::parser::{FnDef, Stmt};
use crate::result::{EvalAltResult, ErrorValue, ParseErrorType, result_view};
use crate::text::{join, str_eq};
use crate::token::Position;
use crate::utils::{calc_fn_hash, fn_hash};

verus! {

broadcast use vstd::std_specs::hash::group_hash_axioms;

/// A bundle of native functions and of iterators. A function is kept under
/// the digest of its name and parameter types, an iterator under the identity
/// of the type it runs over; what is kept is the handle by which the host
/// knows it.
#[derive(Debug)]
pub struct PackageStore {
    /// All functions, keyed by the digest of name and parameter types.
    pub functions: HashMap<u64, u64>,
    /// All iterators, keyed by the type's identity.
    pub type_iterators: HashMap<u64, u64>,
}

/// A package as an engine loads it.
pub type PackageLibrary = PackageStore;

impl PackageStore {
    /// Create a new, empty `PackageStore`.
    pub fn new() -> (lib: PackageStore)
        ensures
            lib.functions@ == Map::<u64, u64>::empty(),
            lib.type_iterators@ == Map::<u64, u64>::empty(),
    {
        PackageStore { functions: HashMap::new(), type_iterators: HashMap::new() }
    }
}

/// Check whether the correct number of arguments is passed to the function.
pub fn check_num_args(name: &str, num_args: usize, given: usize, pos: Position) -> (r: Result<
    (),
    EvalAltResult,
>)
    ensures
        match r {
            Ok(_) => given == num_args,
            Err(e) => given != num_args && e@ == (ErrorValue::ErrorFunctionArgsMismatch(
                name@,
                num_args,
                given,
                pos,
            )),
        },
{
    if given != num_args {
        Err(EvalAltResult::ErrorFunctionArgsMismatch(name.to_owned(), num_args, given, pos))
    } else {
        Ok(())
    }
}

/// Add a function with no parameters to the package, under the given handle.
pub fn reg_none(lib: &mut PackageStore, fn_name: &str, id: u64)
    ensures
        final(lib).functions@ == old(lib).functions@.insert(fn_hash(fn_name@, seq![]), id),
        final(lib).type_iterators@ == old(lib).type_iterators@,
{
    let types: Vec<u64> = Vec::new();
    assert(types@ =~= seq![]);
    let hash = calc_fn_hash(fn_name, &types);
    lib.functions.insert(hash, id);
}

/// Add a function with one parameter of the given type to the package, under
/// the given handle.
pub fn reg_unary(lib: &mut PackageStore, fn_name: &str, a: u64, id: u64)
    ensures
        final(lib).functions@ == old(lib).functions@.insert(fn_hash(fn_name@, seq![a]), id),
        final(lib).type_iterators@ == old(lib).type_iterators@,
{
    let mut types: Vec<u64> = Vec::new();
    types.push(a);
    assert(types@ =~= seq![a]);
    let hash = calc_fn_hash(fn_name, &types);
    lib.functions.insert(hash, id);
}

/// Add a function with two parameters of the given types to the package,
/// under the given handle.
pub fn reg_binary(lib: &mut PackageStore, fn_name: &str, a: u64, b: u64, id: u64)
    ensures
        final(lib).functions@ == old(lib).functions@.insert(fn_hash(fn_name@, seq![a, b]), id),
        final(lib).type_iterators@ == old(lib).type_iterators@,
{
    let mut types: Vec<u64> = Vec::new();
    types.push(a);
    types.push(b);
    assert(types@ =~= seq![a, b]);
    let hash = calc_fn_hash(fn_name, &types);
    lib.functions.insert(hash, id);
}

/// Add a function with three parameters of the given types to the package,
/// under the given handle.
pub fn reg_trinary(lib: &mut PackageStore, fn_name: &str, a: u64, b: u64, c: u64, id: u64)
    ensures
        final(lib).functions@ == old(lib).functions@.insert(fn_hash(fn_name@, seq![a, b, c]), id),
        final(lib).type_iterators@ == old(lib).type_iterators@,
{
    let mut types: Vec<u64> = Vec::new();
    types.push(a);
    types.push(b);
    types.push(c);
    assert(types@ =~= seq![a, b, c]);
    let hash = calc_fn_hash(fn_name, &types);
    lib.functions.insert(hash, id);
}

/// Add an iterator over values of the given type to the package, under the
/// given handle.
pub fn reg_iterator(lib: &mut PackageStore, type_id: u64, id: u64)
    ensures
        final(lib).type_iterators@ == old(lib).type_iterators@.insert(type_id, id),
        final(lib).functions@ == old(lib).functions@,
{
    lib.type_iterators.insert(type_id, id);
}

/// Handle of integer addition.
pub const FN_ADD: u64 = 1;

/// Handle of integer subtraction.
pub const FN_SUB: u64 = 2;

/// Handle of integer multiplication.
pub const FN_MUL: u64 = 3;

/// Handle of "equal".
pub const FN_EQ: u64 = 4;

/// Handle of "not equal".
pub const FN_NE: u64 = 5;

/// Handle of "less than" on integers.
pub const FN_LT: u64 = 6;

/// Handle of "less than or equal" on integers.
pub const FN_LE: u64 = 7;

/// Handle of "greater than" on integers.
pub const FN_GT: u64 = 8;

/// Handle of "greater than or equal" on integers.
pub const FN_GE: u64 = 9;

/// Handle of string concatenation.
pub const FN_CONCAT: u64 = 10;

/// Handle of boolean negation.
pub const FN_NOT: u64 = 11;

/// Handle of integer negation.
pub const FN_NEG: u64 = 12;

/// Handle of the function that returns its one argument.
pub const FN_SAME: u64 = 13;

/// Handle of the iterator over the items of an array.
pub const ITER_ARRAY: u64 = 1;

/// A host that knows the functions of the standard package and nothing
/// else: it has no parser, and what is printed goes nowhere.
#[derive(Debug, Clone, Copy)]
pub struct StandardHost {}

/// Does a number fit an integer value?
pub open spec fn fits(i: int) -> bool {
    -0x8000_0000_0000_0000 <= i <= 0x7fff_ffff_ffff_ffff
}

/// What a function of the standard package returns.
///
/// Arithmetic is on integers and fails where the result does not fit.
/// "Equal" and "not equal" compare two integers, booleans, characters or
/// strings. The other comparisons are on integers. A handle that is not of
/// the package, or arguments that do not fit it, give "function not found".
pub open spec fn standard_result(id: u64, args: Seq<Value>, pos: Position) -> Result<Value, ErrorValue> {
    if args.len() == 2 {
        match (args[0], args[1]) {
            (Value::Int(a), Value::Int(b)) => if id == FN_ADD {
                if fits(a + b) {
                    Ok(Value::Int((a + b) as i64))
                } else {
                    Err(ErrorValue::ErrorRuntime("Addition overflow"@, pos))
                }
            } else if id == FN_SUB {
                if fits(a - b) {
                    Ok(Value::Int((a - b) as i64))
                } else {
                    Err(ErrorValue::ErrorRuntime("Subtraction underflow"@, pos))
                }
            } else if id == FN_MUL {
                if fits(a * b) {
                    Ok(Value::Int((a * b) as i64))
                } else {
                    Err(ErrorValue::ErrorRuntime("Multiplication overflow"@, pos))
                }
            } else if id == FN_EQ {
                Ok(Value::Bool(a == b))
            } else if id == FN_NE {
                Ok(Value::Bool(a != b))
            } else if id == FN_LT {
                Ok(Value::Bool(a < b))
            } else if id == FN_LE {
                Ok(Value::Bool(a <= b))
            } else if id == FN_GT {
                Ok(Value::Bool(a > b))
            } else if id == FN_GE {
                Ok(Value::Bool(a >= b))
            } else {
                Err(ErrorValue::ErrorFunctionNotFound(Seq::empty(), pos))
            },
            (Value::Bool(a), Value::Bool(b)) => if id == FN_EQ {
                Ok(Value::Bool(a == b))
            } else if id == FN_NE {
                Ok(Value::Bool(a != b))
            } else {
                Err(ErrorValue::ErrorFunctionNotFound(Seq::empty(), pos))
            },
            (Value::Char(a), Value::Char(b)) => if id == FN_EQ {
                Ok(Value::Bool(a == b))
            } else if id == FN_NE {
                Ok(Value::Bool(a != b))
            } else {
                Err(ErrorValue::ErrorFunctionNotFound(Seq::empty(), pos))
            },
            (Value::Str(a), Value::Str(b)) => if id == FN_EQ {
                Ok(Value::Bool(a == b))
            } else if id == FN_NE {
                Ok(Value::Bool(a != b))
            } else if id == FN_CONCAT {
                Ok(Value::Str(a + b))
            } else {
                Err(ErrorValue::ErrorFunctionNotFound(Seq::empty(), pos))
            },
            _ => Err(ErrorValue::ErrorFunctionNotFound(Seq::empty(), pos)),
        }
    } else if args.len() == 1 {
        if id == FN_SAME {
            Ok(args[0])
        } else {
            match args[0] {
                Value::Bool(a) => if id == FN_NOT {
                    Ok(Value::Bool(!a))
                } else {
                    Err(ErrorValue::ErrorFunctionNotFound(Seq::empty(), pos))
                },
                Value::Int(a) => if id == FN_NEG {
                    if fits(-a) {
                        Ok(Value::Int((-a) as i64))
                    } else {
                        Err(ErrorValue::ErrorRuntime("Negation overflow"@, pos))
                    }
                } else {
                    Err(ErrorValue::ErrorFunctionNotFound(Seq::empty(), pos))
                },
                _ => Err(ErrorValue::ErrorFunctionNotFound(Seq::empty(), pos)),
            }
        }
    } else {
        Err(ErrorValue::ErrorFunctionNotFound(Seq::empty(), pos))
    }
}

/// Run a function of the standard package on two integers.
fn int_binary(id: u64, a: i64, b: i64, pos: Position) -> (r: Result<Dynamic, EvalAltResult>)
    ensures
        result_view(r) == standard_result(id, seq![Value::Int(a), Value::Int(b)], pos),
{
    if id == FN_ADD {
        match a.checked_add(b) {
            Some(v) => Ok(Dynamic::Int(v)),
            None => Err(EvalAltResult::ErrorRuntime("Addition overflow".to_owned(), pos)),
        }
    } else if id == FN_SUB {
        match a.checked_sub(b) {
            Some(v) => Ok(Dynamic::Int(v)),
            None => Err(EvalAltResult::ErrorRuntime("Subtraction underflow".to_owned(), pos)),
        }
    } else if id == FN_MUL {
        match a.checked_mul(b) {
            Some(v) => Ok(Dynamic::Int(v)),
            None => Err(EvalAltResult::ErrorRuntime("Multiplication overflow".to_owned(), pos)),
        }
    } else if id == FN_EQ {
        Ok(Dynamic::Bool(a == b))
    } else if id == FN_NE {
        Ok(Dynamic::Bool(a != b))
    } else if id == FN_LT {
        Ok(Dynamic::Bool(a < b))
    } else if id == FN_LE {
        Ok(Dynamic::Bool(a <= b))
    } else if id == FN_GT {
        Ok(Dynamic::Bool(a > b))
    } else if id == FN_GE {
        Ok(Dynamic::Bool(a >= b))
    } else {
        Err(EvalAltResult::ErrorFunctionNotFound(String::new(), pos))
    }
}

/// Run a function of the standard package on its arguments.
fn standard_call(id: u64, args: &Vec<Dynamic>, pos: Position) -> (r: Result<Dynamic, EvalAltResult>)
    ensures
        result_view(r) == standard_result(id, values_of(args@), pos),
{
    broadcast use crate::any::group_value_views;

    if args.len() == 2 {
        match (&args[0], &args[1]) {
            (Dynamic::Int(a), Dynamic::Int(b)) => {
                assert(values_of(args@) =~= seq![Value::Int(*a), Value::Int(*b)]);
                int_binary(id, *a, *b, pos)
            },
            (Dynamic::Bool(a), Dynamic::Bool(b)) => {
                if id == FN_EQ {
                    Ok(Dynamic::Bool(*a == *b))
                } else if id == FN_NE {
                    Ok(Dynamic::Bool(*a != *b))
                } else {
                    Err(EvalAltResult::ErrorFunctionNotFound(String::new(), pos))
                }
            },
            (Dynamic::Char(a), Dynamic::Char(b)) => {
                if id == FN_EQ {
                    Ok(Dynamic::Bool(*a == *b))
                } else if id == FN_NE {
                    Ok(Dynamic::Bool(*a != *b))
                } else {
                    Err(EvalAltResult::ErrorFunctionNotFound(String::new(), pos))
                }
            },
            (Dynamic::Str(a), Dynamic::Str(b)) => {
                if id == FN_EQ {
                    Ok(Dynamic::Bool(str_eq(a.as_str(), b.as_str())))
                } else if id == FN_NE {
                    Ok(Dynamic::Bool(!str_eq(a.as_str(), b.as_str())))
                } else if id == FN_CONCAT {
                    Ok(Dynamic::Str(join(a.as_str(), b.as_str())))
                } else {
                    Err(EvalAltResult::ErrorFunctionNotFound(String::new(), pos))
                }
            },
            _ => Err(EvalAltResult::ErrorFunctionNotFound(String::new(), pos)),
        }
    } else if args.len() == 1 {
        if id == FN_SAME {
            Ok(args[0].clone())
        } else {
            match &args[0] {
                Dynamic::Bool(a) => {
                    if id == FN_NOT {
                        Ok(Dynamic::Bool(!*a))
                    } else {
                        Err(EvalAltResult::ErrorFunctionNotFound(String::new(), pos))
                    }
                },
                Dynamic::Int(a) => {
                    if id == FN_NEG {
                        match 0i64.checked_sub(*a) {
                            Some(v) => Ok(Dynamic::Int(v)),
                            None => Err(EvalAltResult::ErrorRuntime("Negation overflow".to_owned(), pos)),
                        }
                    } else {
                        Err(EvalAltResult::ErrorFunctionNotFound(String::new(), pos))
                    }
                },
                _ => Err(EvalAltResult::ErrorFunctionNotFound(String::new(), pos)),
            }
        }
    } else {
        Err(EvalAltResult::ErrorFunctionNotFound(String::new(), pos))
    }
}

impl Host for StandardHost {
    open spec fn native_outcome(&self, id: u64, args: Seq<Value>, pos: Position) -> (
        Result<Value, ErrorValue>,
        Seq<Value>,
    ) {
        (standard_result(id, args, pos), args)
    }

    open spec fn iter_items(&self, id: u64, value: Value) -> Seq<Value> {
        match value {
            Value::Array(items) => if id == ITER_ARRAY {
                items
            } else {
                Seq::empty()
            },
            _ => Seq::empty(),
        }
    }

    open spec fn parsed(&self, script: Seq<char>) -> Result<Script, (ParseErrorType, Position)> {
        Err((ParseErrorType::BadInput, Position::spec_none()))
    }

    fn call_native(&self, id: u64, args: &mut Vec<Dynamic>, pos: Position) -> (r: Result<Dynamic, EvalAltResult>) {
        standard_call(id, args, pos)
    }

    fn iterate(&self, id: u64, value: Dynamic) -> (r: Vec<Dynamic>) {
        broadcast use crate::any::group_value_views;

        match value {
            Dynamic::Array(items) => {
                if id == ITER_ARRAY {
                    items
                } else {
                    let r: Vec<Dynamic> = Vec::new();
                    assert(values_of(r@) =~= Seq::<Value>::empty());
                    r
                }
            },
            _ => {
                let r: Vec<Dynamic> = Vec::new();
                assert(values_of(r@) =~= Seq::<Value>::empty());
                r
            },
        }
    }

    fn compile(&self, script: &str) -> (r: Result<(Vec<Stmt>, Vec<FnDef>), (ParseErrorType, Position)>) {
        Err((ParseErrorType::BadInput, Position::none()))
    }

    fn print(&self, text: &str) {
    }

    fn debug(&self, text: &str) {
    }
}

/// The functions of the standard package, as a table from the digest of
/// name and parameter types to the handle.
pub open spec fn standard_functions() -> Map<u64, u64> {
    Map::<u64, u64>::empty().insert(fn_hash("+"@, seq![TYPE_ID_INT, TYPE_ID_INT]), FN_ADD).insert(
        fn_hash("-"@, seq![TYPE_ID_INT, TYPE_ID_INT]),
        FN_SUB,
    ).insert(fn_hash("*"@, seq![TYPE_ID_INT, TYPE_ID_INT]), FN_MUL).insert(
        fn_hash("=="@, seq![TYPE_ID_INT, TYPE_ID_INT]),
        FN_EQ,
    ).insert(fn_hash("!="@, seq![TYPE_ID_INT, TYPE_ID_INT]), FN_NE).insert(
        fn_hash("<"@, seq![TYPE_ID_INT, TYPE_ID_INT]),
        FN_LT,
    ).insert(fn_hash("<="@, seq![TYPE_ID_INT, TYPE_ID_INT]), FN_LE).insert(
        fn_hash(">"@, seq![TYPE_ID_INT, TYPE_ID_INT]),
        FN_GT,
    ).insert(fn_hash(">="@, seq![TYPE_ID_INT, TYPE_ID_INT]), FN_GE).insert(
        fn_hash("-"@, seq![TYPE_ID_INT]),
        FN_NEG,
    ).insert(fn_hash("=="@, seq![TYPE_ID_BOOL, TYPE_ID_BOOL]), FN_EQ).insert(
        fn_hash("!="@, seq![TYPE_ID_BOOL, TYPE_ID_BOOL]),
        FN_NE,
    ).insert(fn_hash("!"@, seq![TYPE_ID_BOOL]), FN_NOT).insert(
        fn_hash("=="@, seq![TYPE_ID_CHAR, TYPE_ID_CHAR]),
        FN_EQ,
    ).insert(fn_hash("!="@, seq![TYPE_ID_CHAR, TYPE_ID_CHAR]), FN_NE).insert(
        fn_hash("=="@, seq![TYPE_ID_STRING, TYPE_ID_STRING]),
        FN_EQ,
    ).insert(fn_hash("!="@, seq![TYPE_ID_STRING, TYPE_ID_STRING]), FN_NE).insert(
        fn_hash("+"@, seq![TYPE_ID_STRING, TYPE_ID_STRING]),
        FN_CONCAT,
    ).insert(fn_hash(KEYWORD_PRINT@, seq![TYPE_ID_STRING]), FN_SAME).insert(
        fn_hash(KEYWORD_DEBUG@, seq![TYPE_ID_STRING]),
        FN_SAME,
    )
}

/// The standard package: arithmetic and comparisons on integers, equality
/// on booleans, characters and strings, the joining of strings, `print` and
/// `debug` of a string, and the iterator over arrays.
pub fn standard_package() -> (lib: PackageLibrary)
    ensures
        lib.functions@ == standard_functions(),
        lib.type_iterators@ == Map::<u64, u64>::empty().insert(TYPE_ID_ARRAY, ITER_ARRAY),
{
    let mut lib = PackageStore::new();
    reg_binary(&mut lib, "+", TYPE_ID_INT, TYPE_ID_INT, FN_ADD);
    reg_binary(&mut lib, "-", TYPE_ID_INT, TYPE_ID_INT, FN_SUB);
    reg_binary(&mut lib, "*", TYPE_ID_INT, TYPE_ID_INT, FN_MUL);
    reg_binary(&mut lib, "==", TYPE_ID_INT, TYPE_ID_INT, FN_EQ);
    reg_binary(&mut lib, "!=", TYPE_ID_INT, TYPE_ID_INT, FN_NE);
    reg_binary(&mut lib, "<", TYPE_ID_INT, TYPE_ID_INT, FN_LT);
    reg_binary(&mut lib, "<=", TYPE_ID_INT, TYPE_ID_INT, FN_LE);
    reg_binary(&mut lib, ">", TYPE_ID_INT, TYPE_ID_INT, FN_GT);
    reg_binary(&mut lib, ">=", TYPE_ID_INT, TYPE_ID_INT, FN_GE);
    reg_unary(&mut lib, "-", TYPE_ID_INT, FN_NEG);
    reg_binary(&mut lib, "==", TYPE_ID_BOOL, TYPE_ID_BOOL, FN_EQ);
    reg_binary(&mut lib, "!=", TYPE_ID_BOOL, TYPE_ID_BOOL, FN_NE);
    reg_unary(&mut lib, "!", TYPE_ID_BOOL, FN_NOT);
    reg_binary(&mut lib, "==", TYPE_ID_CHAR, TYPE_ID_CHAR, FN_EQ);
    reg_binary(&mut lib, "!=", TYPE_ID_CHAR, TYPE_ID_CHAR, FN_NE);
    reg_binary(&mut lib, "==", TYPE_ID_STRING, TYPE_ID_STRING, FN_EQ);
    reg_binary(&mut lib, "!=", TYPE_ID_STRING, TYPE_ID_STRING, FN_NE);
    reg_binary(&mut lib, "+", TYPE_ID_STRING, TYPE_ID_STRING, FN_CONCAT);
    reg_unary(&mut lib, KEYWORD_PRINT, TYPE_ID_STRING, FN_SAME);
    reg_unary(&mut lib, KEYWORD_DEBUG, TYPE_ID_STRING, FN_SAME);
    reg_iterator(&mut lib, TYPE_ID_ARRAY, ITER_ARRAY);
    lib
}

impl Engine<StandardHost> {
    /// Create a new `Engine` with the standard package loaded.
    pub fn new() -> (engine: Self)
        ensures
            engine.packages@.len() == 1,
            engine.packages@[0].functions@ == standard_functions(),
            engine.packages@[0].type_iterators@ == Map::<u64, u64>::empty().insert(
                TYPE_ID_ARRAY,
                ITER_ARRAY,
            ),
            engine.functions@ == Map::<u64, u64>::empty(),
            engine.type_iterators@ == Map::<u64, u64>::empty(),
            engine.type_names@.len() == 0,
            engine.optimization_level == crate::optimize::OptimizationLevel::Simple,
            engine.max_call_stack_depth == crate::engine::MAX_CALL_STACK_DEPTH,
            engine.max_loop_rounds == crate::engine::MAX_LOOP_ROUNDS,
    {
        let mut engine = Engine::new_raw(StandardHost {  });
        engine.load_package(standard_package());
        engine
    }
}

impl Default for Engine<StandardHost> {
    /// The engine with the standard package loaded, as `Engine::new` makes it.
    fn default() -> (engine: Self)
        ensures
            engine.packages@.len() == 1,
            engine.packages@[0].functions@ == standard_functions(),
            engine.packages@[0].type_iterators@ == Map::<u64, u64>::empty().insert(
                TYPE_ID_ARRAY,
                ITER_ARRAY,
            ),
            engine.functions@ == Map::<u64, u64>::empty(),
            engine.type_iterators@ == Map::<u64, u64>::empty(),
            engine.type_names@.len() == 0,
            engine.optimization_level == crate::optimize::OptimizationLevel::Simple,
            engine.max_call_stack_depth == crate::engine::MAX_CALL_STACK_DEPTH,
            engine.max_loop_rounds == crate::engine::MAX_LOOP_ROUNDS,
    {
        Engine::new()
    }
}

} // verus!
