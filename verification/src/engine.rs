//! Main module defining the script evaluation `Engine`.

use vstd::prelude::*;
use std::collections::HashMap;
use std::rc::Rc;
use vstd::std_specs::iter::IteratorSpec;
use crate::any::{Dynamic, Value, values_of, TYPE_ID_STRING};
use crate::optimize::OptimizationLevel;
use crate::packages::PackageLibrary;
use crate::model::{FnDefValue, Script, defs_of, stmts_of};
use crate::parser::{FnDef, Stmt};
use crate::result::{EvalAltResult, ErrorValue, ParseErrorType, result_view};
use crate::text::{join, strip_prefix, str_eq};
use crate::token::Position;
use crate::utils::{calc_fn_def, calc_fn_hash, fn_def_hash, fn_hash};

verus! {

broadcast use vstd::std_specs::hash::group_hash_axioms;

/// The call-stack depth that a new engine allows.
pub const MAX_CALL_STACK_DEPTH: usize = 28;

/// The number of rounds that a new engine allows one loop to run.
pub const MAX_LOOP_ROUNDS: u64 = 0xffff_ffff_ffff_ffff;

/// The name of the function whose result goes to the sink of `print`.
pub const KEYWORD_PRINT: &'static str = "print";

/// The name of the function whose result goes to the sink of `debug`.
pub const KEYWORD_DEBUG: &'static str = "debug";

/// The name of the function that gives the name of its argument's type.
pub const KEYWORD_TYPE_OF: &'static str = "type_of";

/// The name of the function that runs its argument as a script.
pub const KEYWORD_EVAL: &'static str = "eval";

/// The name by which a host conventionally registers its formatters.
pub const FUNC_TO_STRING: &'static str = "to_string";

/// What the name of a property's getter begins with.
pub const FUNC_GETTER: &'static str = "get$";

/// What the name of a property's setter begins with.
pub const FUNC_SETTER: &'static str = "set$";

/// What stands outside the engine: the native functions and iterators of the
/// host application, the parser that `eval` needs, and the sinks of `print`
/// and `debug`.
///
/// The engine's tables give each native function and each iterator a handle;
/// the host answers to the handle. A native function is a function of its
/// arguments and of the position of the call: the same call gives the same
/// outcome.
pub trait Host {
    /// What the native function `id` returns for these arguments, and the
    /// arguments as it leaves them.
    spec fn native_outcome(&self, id: u64, args: Seq<Value>, pos: Position) -> (
        Result<Value, ErrorValue>,
        Seq<Value>,
    );

    /// The values that the iterator `id` yields for this value, in order.
    spec fn iter_items(&self, id: u64, value: Value) -> Seq<Value>;

    /// What the parser makes of a script: its statements and the functions
    /// that it defines, or why it is no script.
    spec fn parsed(&self, script: Seq<char>) -> Result<Script, (ParseErrorType, Position)>;

    /// Call the native function `id`. The first argument is passed by
    /// reference in effect: what the function leaves there is what the caller
    /// sees. The number of arguments does not change.
    fn call_native(&self, id: u64, args: &mut Vec<Dynamic>, pos: Position) -> (r: Result<
        Dynamic,
        EvalAltResult,
    >)
        ensures
            result_view(r) == self.native_outcome(id, values_of(old(args)@), pos).0,
            values_of(final(args)@) == self.native_outcome(id, values_of(old(args)@), pos).1,
            final(args)@.len() == old(args)@.len(),
    ;

    /// Run the iterator `id` over a value.
    fn iterate(&self, id: u64, value: Dynamic) -> (r: Vec<Dynamic>)
        ensures
            values_of(r@) == self.iter_items(id, value@),
    ;

    /// Parse a script into its statements and the functions that it defines.
    fn compile(&self, script: &str) -> (r: Result<(Vec<Stmt>, Vec<FnDef>), (ParseErrorType, Position)>)
        ensures
            match r {
                Ok((statements, functions)) => self.parsed(script@) == Ok::<
                    Script,
                    (ParseErrorType, Position),
                >((stmts_of(statements@), defs_of(functions@))),
                Err(e) => self.parsed(script@) == Err::<Script, (ParseErrorType, Position)>(e),
            },
    ;

    /// Hand a text to the sink of `print`.
    fn print(&self, text: &str);

    /// Hand a text to the sink of `debug`.
    fn debug(&self, text: &str);
}

/// A type that holds all the current states of the engine.
#[derive(Debug, Clone, Copy, PartialEq, Eq, Structural, Hash)]
pub struct State {
    /// Normally, access to variables are parsed with a relative offset into the scope to avoid a lookup.
    /// In some situation, e.g. after running an `eval` statement, subsequent offsets may become mis-aligned.
    /// When that happens, this flag is turned on to force a scope lookup by name.
    pub always_search: bool,
}

impl State {
    /// Create a new `State`.
    pub fn new() -> (s: State)
        ensures
            !s.always_search,
    {
        State { always_search: false }
    }
}

/// Share a function definition.
///
/// Trusted: stands for `Rc::clone` of the standard library, which makes
/// another pointer to the same allocation, so that both hold the same value.
#[verifier::external_body]
fn share(def: &Rc<FnDef>) -> (r: Rc<FnDef>)
    ensures
        r == *def,
{
    Rc::clone(def)
}

/// A type that holds a library of script-defined functions.
///
/// Since script-defined functions have `Dynamic` parameters, functions with
/// the same name and number of parameters are considered equivalent.
///
/// The key of a function is the digest of its name and number of parameters.
#[derive(Debug)]
pub struct FunctionsLib {
    pub defs: HashMap<u64, Rc<FnDef>>,
}

impl View for FunctionsLib {
    type V = Map<u64, FnDefValue>;

    open spec fn view(&self) -> Map<u64, FnDefValue> {
        Map::new(|k: u64| self.defs@.contains_key(k), |k: u64| self.defs@[k]@)
    }
}

/// The library that holds the first `n` of the given definitions: a later
/// definition replaces an earlier one of the same key.
pub open spec fn lib_of(defs: Seq<FnDefValue>, n: int) -> Map<u64, FnDefValue>
    decreases n,
{
    if n <= 0 || n > defs.len() {
        Map::empty()
    } else {
        lib_of(defs, n - 1).insert(
            fn_def_hash(defs[n - 1].name, defs[n - 1].params.len()),
            defs[n - 1],
        )
    }
}

impl FunctionsLib {
    /// Create a new, empty `FunctionsLib`.
    pub fn new() -> (lib: FunctionsLib)
        ensures
            lib@ == Map::<u64, FnDefValue>::empty(),
    {
        let lib = FunctionsLib { defs: HashMap::new() };
        assert(lib@ =~= Map::<u64, FnDefValue>::empty());
        lib
    }

    /// Create a new `FunctionsLib` from a collection of `FnDef`. Where two
    /// definitions have the same key, the later one stays.
    pub fn from_vec(vec: Vec<FnDef>) -> (lib: FunctionsLib)
        ensures
            lib@ == lib_of(defs_of(vec@), vec@.len() as int),
    {
        let mut vec = vec;
        let ghost all = defs_of(vec@);
        let ghost given = vec@;
        let mut defs: HashMap<u64, Rc<FnDef>> = HashMap::new();
        // The definitions are taken from the back, so an earlier one must
        // not replace a later one of the same key.
        while vec.len() > 0
            invariant
                vec@ == given.subrange(0, vec@.len() as int),
                vec@.len() <= given.len(),
                all == defs_of(given),
                forall|k: u64| #[trigger]
                    defs@.contains_key(k) || lib_of(all, vec@.len() as int).contains_key(k)
                        <==> lib_of(all, all.len() as int).contains_key(k),
                forall|k: u64| #[trigger]
                    defs@.contains_key(k) ==> defs@[k]@ == lib_of(all, all.len() as int)[k],
                forall|k: u64|
                    !defs@.contains_key(k) && #[trigger] lib_of(all, vec@.len() as int).contains_key(k)
                        ==> lib_of(all, vec@.len() as int)[k] == lib_of(all, all.len() as int)[k],
            decreases vec@.len(),
        {
            let ghost n = vec@.len() as int;
            let f = vec.pop().unwrap();
            assert(f@ == all[n - 1]);
            let hash = calc_fn_def(f.name.as_str(), f.params.len());
            assert(lib_of(all, n) == lib_of(all, n - 1).insert(hash, f@));
            if !defs.contains_key(&hash) {
                defs.insert(hash, Rc::new(f));
            }
            assert(vec@ =~= given.subrange(0, vec@.len() as int));
        }
        let lib = FunctionsLib { defs };
        assert(lib@ =~= lib_of(all, all.len() as int));
        lib
    }

    /// Merge another `FunctionsLib` into this `FunctionsLib`: the result
    /// holds the functions of both, and where both hold one under the same
    /// key, that of `other`.
    pub fn merge(&self, other: &Self) -> (r: FunctionsLib)
        ensures
            r@ == self@.union_prefer_right(other@),
    {
        let mut functions = self.defs.clone();
        let ghost all = other.defs.iter().remaining();
        for entry in iter: other.defs.iter()
            invariant
                iter.seq() == all,
                all == vstd::std_specs::hash::spec_hash_map_iter(&other.defs).remaining(),
                all.no_duplicates(),
                forall|key: u64| #[trigger]
                    functions@.contains_key(key) <==> self.defs@.contains_key(key) || exists|j: int|
                        0 <= j < iter.index() && *(#[trigger] all[j]).0 == key,
                forall|j: int|
                    0 <= j < iter.index() ==> functions@[*(#[trigger] all[j]).0] == *all[j].1,
                forall|key: u64|
                    self.defs@.contains_key(key) && !(exists|j: int|
                        0 <= j < iter.index() && *(#[trigger] all[j]).0 == key) ==> #[trigger] functions@[key]
                        == self.defs@[key],
        {
            let (k, v) = entry;
            proof {
                let i = iter.index() as int;
                assert(other.defs@.contains_key(*all[i].0) && other.defs@[*all[i].0] == *all[i].1);
                assert forall|j: int| 0 <= j < i implies *(#[trigger] all[j]).0 != *k by {
                    assert(other.defs@.contains_key(*all[j].0) && other.defs@[*all[j].0] == *all[j].1);
                    if *all[j].0 == *all[i].0 {
                        assert(all[j] == all[i]);
                    }
                }
            }
            functions.insert(*k, share(v));
        }
        let r = FunctionsLib { defs: functions };
        assert(r@ =~= self@.union_prefer_right(other@));
        r
    }

    /// Get the number of functions in the library.
    pub fn len(&self) -> (n: usize)
        ensures
            n == self@.len(),
    {
        assert(self@.dom() =~= self.defs@.dom());
        self.defs.len()
    }

    /// Does a certain function exist in the `FunctionsLib`?
    pub fn has_function(&self, name: &str, params: usize) -> (b: bool)
        ensures
            b == self@.contains_key(fn_def_hash(name@, params as nat)),
    {
        self.defs.contains_key(&calc_fn_def(name, params))
    }

    /// Get a function definition from the `FunctionsLib`.
    pub fn get_function(&self, name: &str, params: usize) -> (r: Option<&FnDef>)
        ensures
            match r {
                Some(f) => self@.contains_key(fn_def_hash(name@, params as nat)) && f@
                    == self@[fn_def_hash(name@, params as nat)],
                None => !self@.contains_key(fn_def_hash(name@, params as nat)),
            },
    {
        match self.defs.get(&calc_fn_def(name, params)) {
            Some(f) => Some(&**f),
            None => None,
        }
    }
}


/// Rhai main scripting engine: the tables of native functions and iterators,
/// the loaded packages, and the limits of an evaluation.
pub struct Engine<H: Host> {
    /// What stands outside the engine.
    pub host: H,
    /// A collection of all library packages loaded into the engine, the one
    /// loaded last in front.
    pub packages: Vec<PackageLibrary>,
    /// The native functions registered with the engine itself, keyed by the
    /// digest of name and parameter types.
    pub functions: HashMap<u64, u64>,
    /// The iterators registered with the engine itself, keyed by the type's identity.
    pub type_iterators: HashMap<u64, u64>,
    /// Pairs of a type name and the name to show for it.
    pub type_names: Vec<(String, String)>,
    /// Optimize the AST after compilation.
    pub optimization_level: OptimizationLevel,
    /// Maximum levels of call-stack to prevent infinite recursion.
    pub max_call_stack_depth: usize,
    /// Maximum number of rounds of one loop.
    pub max_loop_rounds: u64,
}

/// Make getter function
pub fn make_getter(id: &str) -> (r: String)
    ensures
        r@ == FUNC_GETTER@ + id@,
{
    join(FUNC_GETTER, id)
}

/// Make setter function
pub fn make_setter(id: &str) -> (r: String)
    ensures
        r@ == FUNC_SETTER@ + id@,
{
    join(FUNC_SETTER, id)
}

/// The property that a getter's name names: what follows the prefix.
pub open spec fn prop_of_getter(fn_name: Seq<char>) -> Option<Seq<char>> {
    if FUNC_GETTER@.is_prefix_of(fn_name) {
        Some(fn_name.subrange(FUNC_GETTER@.len() as int, fn_name.len() as int))
    } else {
        None
    }
}

/// The property that a setter's name names: what follows the prefix.
pub open spec fn prop_of_setter(fn_name: Seq<char>) -> Option<Seq<char>> {
    if FUNC_SETTER@.is_prefix_of(fn_name) {
        Some(fn_name.subrange(FUNC_SETTER@.len() as int, fn_name.len() as int))
    } else {
        None
    }
}

/// Extract the property name from a getter function name.
pub fn extract_prop_from_getter(fn_name: &str) -> (r: Option<&str>)
    ensures
        match r {
            Some(prop) => prop_of_getter(fn_name@) == Some(prop@),
            None => prop_of_getter(fn_name@).is_none(),
        },
{
    let r = strip_prefix(fn_name, FUNC_GETTER);
    proof {
        if let Some(rest) = r {
            assert(FUNC_GETTER@.is_prefix_of(fn_name@));
            assert(rest@ =~= fn_name@.subrange(FUNC_GETTER@.len() as int, fn_name@.len() as int));
        }
    }
    r
}

/// Extract the property name from a setter function name.
pub fn extract_prop_from_setter(fn_name: &str) -> (r: Option<&str>)
    ensures
        match r {
            Some(prop) => prop_of_setter(fn_name@) == Some(prop@),
            None => prop_of_setter(fn_name@).is_none(),
        },
{
    let r = strip_prefix(fn_name, FUNC_SETTER);
    proof {
        if let Some(rest) = r {
            assert(FUNC_SETTER@.is_prefix_of(fn_name@));
            assert(rest@ =~= fn_name@.subrange(FUNC_SETTER@.len() as int, fn_name@.len() as int));
        }
    }
    r
}

/// The handle kept under `key` in the first of the packages at or after
/// `from` that has the key, by the given choice of table.
pub open spec fn find_in_packages(
    packages: Seq<PackageLibrary>,
    iterators: bool,
    key: u64,
    from: int,
) -> Option<u64>
    decreases packages.len() - from,
{
    if from < 0 || from >= packages.len() {
        None
    } else if iterators && packages[from].type_iterators@.contains_key(key) {
        Some(packages[from].type_iterators@[key])
    } else if !iterators && packages[from].functions@.contains_key(key) {
        Some(packages[from].functions@[key])
    } else {
        find_in_packages(packages, iterators, key, from + 1)
    }
}

/// The name to show for a type name: the second part of the first pair
/// whose first part is the name, or the name itself.
pub open spec fn shown_name(names: Seq<(String, String)>, name: Seq<char>, from: int) -> Seq<char>
    decreases names.len() - from,
{
    if from < 0 || from >= names.len() {
        name
    } else if names[from].0@ == name {
        names[from].1@
    } else {
        shown_name(names, name, from + 1)
    }
}

impl<H: Host> Engine<H> {
    /// Create a new `Engine` with no functions registered and no package loaded.
    /// Use the `load_package` method to load packages of functions.
    pub fn new_raw(host: H) -> (engine: Self)
        ensures
            engine.host == host,
            engine.packages@.len() == 0,
            engine.functions@ == Map::<u64, u64>::empty(),
            engine.type_iterators@ == Map::<u64, u64>::empty(),
            engine.type_names@.len() == 0,
            engine.optimization_level == OptimizationLevel::Simple,
            engine.max_call_stack_depth == MAX_CALL_STACK_DEPTH,
            engine.max_loop_rounds == MAX_LOOP_ROUNDS,
    {
        Engine {
            host,
            packages: Vec::new(),
            functions: HashMap::new(),
            type_iterators: HashMap::new(),
            type_names: Vec::new(),
            optimization_level: OptimizationLevel::Simple,
            max_call_stack_depth: MAX_CALL_STACK_DEPTH,
            max_loop_rounds: MAX_LOOP_ROUNDS,
        }
    }

    /// Load a new package into the `Engine`.
    ///
    /// When searching for functions, packages loaded later are preferred.
    /// In other words, loaded packages are searched in reverse order.
    pub fn load_package(&mut self, package: PackageLibrary)
        ensures
            final(self).packages@ == seq![package] + old(self).packages@,
            final(self).host == old(self).host,
            final(self).functions == old(self).functions,
            final(self).type_iterators == old(self).type_iterators,
            final(self).type_names == old(self).type_names,
            final(self).optimization_level == old(self).optimization_level,
            final(self).max_call_stack_depth == old(self).max_call_stack_depth,
            final(self).max_loop_rounds == old(self).max_loop_rounds,
    {
        self.packages.insert(0, package);
        assert(self.packages@ =~= seq![package] + old(self).packages@);
    }

    /// Control whether and how the `Engine` will optimize an AST after compilation.
    pub fn set_optimization_level(&mut self, optimization_level: OptimizationLevel)
        ensures
            final(self).optimization_level == optimization_level,
            final(self).host == old(self).host,
            final(self).packages == old(self).packages,
            final(self).functions == old(self).functions,
            final(self).type_iterators == old(self).type_iterators,
            final(self).type_names == old(self).type_names,
            final(self).max_call_stack_depth == old(self).max_call_stack_depth,
            final(self).max_loop_rounds == old(self).max_loop_rounds,
    {
        self.optimization_level = optimization_level
    }

    /// Set the maximum levels of function calls allowed for a script in order to avoid
    /// infinite recursion and stack overflows.
    pub fn set_max_call_levels(&mut self, levels: usize)
        ensures
            final(self).max_call_stack_depth == levels,
            final(self).host == old(self).host,
            final(self).packages == old(self).packages,
            final(self).functions == old(self).functions,
            final(self).type_iterators == old(self).type_iterators,
            final(self).type_names == old(self).type_names,
            final(self).optimization_level == old(self).optimization_level,
            final(self).max_loop_rounds == old(self).max_loop_rounds,
    {
        self.max_call_stack_depth = levels
    }

    /// Set the maximum number of rounds that one loop of a script may run.
    pub fn set_max_loop_rounds(&mut self, rounds: u64)
        ensures
            final(self).max_loop_rounds == rounds,
            final(self).host == old(self).host,
            final(self).packages == old(self).packages,
            final(self).functions == old(self).functions,
            final(self).type_iterators == old(self).type_iterators,
            final(self).type_names == old(self).type_names,
            final(self).optimization_level == old(self).optimization_level,
            final(self).max_call_stack_depth == old(self).max_call_stack_depth,
    {
        self.max_loop_rounds = rounds
    }

    /// Register a native function with the engine under its name and the type
    /// identities of its parameters. A function registered before under the
    /// same name and types is replaced.
    pub fn register_fn(&mut self, name: &str, type_ids: &Vec<u64>, id: u64)
        ensures
            final(self).functions@ == old(self).functions@.insert(fn_hash(name@, type_ids@), id),
            final(self).host == old(self).host,
            final(self).packages == old(self).packages,
            final(self).type_iterators == old(self).type_iterators,
            final(self).type_names == old(self).type_names,
            final(self).optimization_level == old(self).optimization_level,
            final(self).max_call_stack_depth == old(self).max_call_stack_depth,
            final(self).max_loop_rounds == old(self).max_loop_rounds,
    {
        let hash = calc_fn_hash(name, type_ids);
        self.functions.insert(hash, id);
    }

    /// Register an iterator over the values of a type with the engine.
    pub fn register_iterator(&mut self, type_id: u64, id: u64)
        ensures
            final(self).type_iterators@ == old(self).type_iterators@.insert(type_id, id),
            final(self).host == old(self).host,
            final(self).packages == old(self).packages,
            final(self).functions == old(self).functions,
            final(self).type_names == old(self).type_names,
            final(self).optimization_level == old(self).optimization_level,
            final(self).max_call_stack_depth == old(self).max_call_stack_depth,
            final(self).max_loop_rounds == old(self).max_loop_rounds,
    {
        self.type_iterators.insert(type_id, id);
    }

    /// Register the name to show for a type name. A name registered later
    /// for the same type name does not replace it.
    pub fn register_type_with_name(&mut self, type_label: &str, shown: &str)
        ensures
            final(self).type_names@.len() == old(self).type_names@.len() + 1,
            forall|i: int| 0 <= i < old(self).type_names@.len() ==> final(self).type_names@[i] == old(self).type_names@[i],
            final(self).type_names@.last().0@ == type_label@,
            final(self).type_names@.last().1@ == shown@,
            final(self).host == old(self).host,
            final(self).packages == old(self).packages,
            final(self).functions == old(self).functions,
            final(self).type_iterators == old(self).type_iterators,
            final(self).optimization_level == old(self).optimization_level,
            final(self).max_call_stack_depth == old(self).max_call_stack_depth,
            final(self).max_loop_rounds == old(self).max_loop_rounds,
    {
        self.type_names.push((type_label.to_owned(), shown.to_owned()));
    }

    /// The handle of the native function with the given digest: that of the
    /// engine's own table, or else of the newest package that has one.
    pub open spec fn find_native(&self, hash: u64) -> Option<u64> {
        if self.functions@.contains_key(hash) {
            Some(self.functions@[hash])
        } else {
            find_in_packages(self.packages@, false, hash, 0)
        }
    }

    /// The handle of the iterator over the given type: that of the engine's
    /// own table, or else of the newest package that has one.
    pub open spec fn find_iterator(&self, type_id: u64) -> Option<u64> {
        if self.type_iterators@.contains_key(type_id) {
            Some(self.type_iterators@[type_id])
        } else {
            find_in_packages(self.packages@, true, type_id, 0)
        }
    }

    /// Look a native function up by its digest: first in the engine's own
    /// table, then in the packages, the one loaded last first.
    pub fn lookup_native(&self, hash: u64) -> (r: Option<u64>)
        ensures
            r == self.find_native(hash),
    {
        match self.functions.get(&hash) {
            Some(id) => Some(*id),
            None => {
                let mut i: usize = 0;
                while i < self.packages.len()
                    invariant
                        i <= self.packages.len(),
                        !self.functions@.contains_key(hash),
                        find_in_packages(self.packages@, false, hash, 0) == find_in_packages(
                            self.packages@,
                            false,
                            hash,
                            i as int,
                        ),
                    decreases self.packages.len() - i,
                {
                    match self.packages[i].functions.get(&hash) {
                        Some(id) => {
                            return Some(*id);
                        },
                        None => {},
                    }
                    i += 1;
                }
                None
            },
        }
    }

    /// Look an iterator up by the identity of the type it runs over: first in
    /// the engine's own table, then in the packages, the one loaded last first.
    pub fn lookup_iterator(&self, type_id: u64) -> (r: Option<u64>)
        ensures
            r == self.find_iterator(type_id),
    {
        match self.type_iterators.get(&type_id) {
            Some(id) => Some(*id),
            None => {
                let mut i: usize = 0;
                while i < self.packages.len()
                    invariant
                        i <= self.packages.len(),
                        !self.type_iterators@.contains_key(type_id),
                        find_in_packages(self.packages@, true, type_id, 0) == find_in_packages(
                            self.packages@,
                            true,
                            type_id,
                            i as int,
                        ),
                    decreases self.packages.len() - i,
                {
                    match self.packages[i].type_iterators.get(&type_id) {
                        Some(id) => {
                            return Some(*id);
                        },
                        None => {},
                    }
                    i += 1;
                }
                None
            },
        }
    }

    /// Does a function of this name with one string parameter stand in any
    /// table: the engine's, a package's or the script's?
    pub open spec fn overridden(&self, fn_lib: Map<u64, FnDefValue>, name: Seq<char>) -> bool {
        self.find_native(fn_hash(name, seq![TYPE_ID_STRING])).is_some() || fn_lib.contains_key(
            fn_def_hash(name, 1),
        )
    }

    /// Has a system function an override?
    pub fn has_override(&self, fn_lib: &FunctionsLib, name: &str) -> (b: bool)
        ensures
            b == self.overridden(fn_lib@, name@),
    {
        let mut types: Vec<u64> = Vec::new();
        types.push(TYPE_ID_STRING);
        assert(types@ =~= seq![TYPE_ID_STRING]);
        let hash = calc_fn_hash(name, &types);
        self.lookup_native(hash).is_some() || fn_lib.has_function(name, 1)
    }

    /// The name to show for a type name.
    pub open spec fn shown_type(&self, name: Seq<char>) -> Seq<char> {
        shown_name(self.type_names@, name, 0)
    }

    /// Map a type name into a pretty-print name.
    pub fn map_type_name<'a>(&'a self, name: &'a str) -> (r: &'a str)
        ensures
            r@ == self.shown_type(name@),
    {
        let mut i: usize = 0;
        while i < self.type_names.len()
            invariant
                i <= self.type_names.len(),
                shown_name(self.type_names@, name@, 0) == shown_name(self.type_names@, name@, i as int),
            decreases self.type_names.len() - i,
        {
            if str_eq(self.type_names[i].0.as_str(), name) {
                return self.type_names[i].1.as_str();
            }
            i += 1;
        }
        name
    }
}

} // verus!
