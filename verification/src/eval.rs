//! The tree-walking evaluator.

use vstd::prelude::*;
use vstd::string::StrSliceExecFns;
use crate::any::{
    Dynamic, Value, values_of, entries_of, opt_view, find_entry, lemma_values_push,
    lemma_values_update, lemma_entries_update, lemma_entries_push,
};
use crate::engine::{
    Engine, FunctionsLib, Host, State, extract_prop_from_getter, extract_prop_from_setter,
    make_getter, make_setter, KEYWORD_DEBUG, KEYWORD_EVAL, KEYWORD_PRINT, KEYWORD_TYPE_OF,
};
use crate::model::{ExprValue, exprs_of, items_of, stmts_of, texts_of};
use crate::parser::{AST, Expr, FnDef, ReturnType, Stmt};
use crate::result::{EvalAltResult, ErrorValue, ParseErrorType, result_view};
use crate::scope::{EntryType, EntryValue, Scope};
use crate::semantics::{
    CallOutcome, ChainOutcome, EntriesOutcome, ListOutcome, Outcome, bound, last_index,
    rest_indexes, returned, search,
};
use crate::target::{Target, TargetValue};
use crate::text::{char_to_string, join, str_contains, str_eq};
use crate::token::Position;
use crate::utils::calc_fn_spec;

verus! {

broadcast use {crate::any::group_value_views, crate::model::group_tree_views};

/// The model of an optional borrowed value.
pub open spec fn opt_ref_view(o: Option<&Dynamic>) -> Option<Value> {
    match o {
        Some(d) => Some(d@),
        None => None,
    }
}

/// The model of what indexing hands out.
pub open spec fn target_view(r: Result<Target, EvalAltResult>) -> Result<TargetValue, ErrorValue> {
    match r {
        Ok(t) => Ok(t@),
        Err(e) => Err(e@),
    }
}

/// The model of what a step of a chain hands out.
pub open spec fn step_view(r: Result<(Dynamic, bool), EvalAltResult>) -> Result<(Value, bool), ErrorValue> {
    match r {
        Ok((v, changed)) => Ok((v@, changed)),
        Err(e) => Err(e@),
    }
}

/// The model of what the evaluation of a list hands out.
pub open spec fn list_view(r: Result<Vec<Dynamic>, EvalAltResult>) -> Result<Seq<Value>, ErrorValue> {
    match r {
        Ok(vs) => Ok(values_of(vs@)),
        Err(e) => Err(e@),
    }
}

/// The model of what the evaluation of the entries of an object map hands out.
pub open spec fn items_view(r: Result<Vec<(String, Dynamic)>, EvalAltResult>) -> Result<
    Seq<(Seq<char>, Value)>,
    ErrorValue,
> {
    match r {
        Ok(es) => Ok(entries_of(es@)),
        Err(e) => Err(e@),
    }
}

/// How an evaluation ended, as a mathematical value.
pub open spec fn outcome_of(r: Result<Dynamic, EvalAltResult>, scope: &Scope, state: &State) -> Outcome {
    Outcome { result: result_view(r), scope: scope@, always_search: state.always_search }
}

/// Take a value out of its place and leave unit there.
fn take_value(d: &mut Dynamic) -> (r: Dynamic)
    ensures
        r == *old(d),
        *final(d) == Dynamic::Unit,
{
    let mut taken = Dynamic::Unit;
    core::mem::swap(d, &mut taken);
    taken
}

/// Search for a variable within the scope: at the distance from the top that
/// the parser recorded, if that lies within the scope, and else by its name.
pub fn search_scope(scope: &Scope, name: &str, index: Option<usize>, pos: Position) -> (r: Result<
    (usize, EntryType),
    EvalAltResult,
>)
    ensures
        match r {
            Ok((j, typ)) => search(scope@, name@, index, pos) == Ok::<int, ErrorValue>(j as int) && j
                < scope@.len() && typ == scope@[j as int].typ,
            Err(e) => search(scope@, name@, index, pos) == Err::<int, ErrorValue>(e@),
        },
{
    match index {
        Some(i) if 1 <= i && i <= scope.len() => {
            let j = scope.len() - i;
            Ok((j, scope.entries[j].typ))
        },
        _ => match scope.get(name) {
            Some((j, typ)) => Ok((j, typ)),
            None => Err(EvalAltResult::ErrorVariableNotFound(name.to_owned(), pos)),
        },
    }
}

impl<H: Host> Engine<H> {
    /// Is a call at this level one too deep?
    fn too_deep(&self, level: usize) -> (b: bool)
        ensures
            b == self.overflows(level as nat),
    {
        level > self.max_call_stack_depth || level >= usize::MAX
    }

    /// The signature under which a missing function is reported.
    fn describe(&self, fn_name: &str, args: &Vec<Dynamic>) -> (r: String)
        ensures
            r@ == self.signature(fn_name@, values_of(args@)),
    {
        let mut types = String::new();
        let mut i: usize = 0;
        while i < args.len()
            invariant
                i <= args.len(),
                types@ == self.joined_types(values_of(args@), i as int),
            decreases args.len() - i,
        {
            let shown = self.map_type_name(args[i].type_label());
            if i == 0 {
                types = shown.to_owned();
            } else {
                types = join(join(types.as_str(), ", ").as_str(), shown);
            }
            i += 1;
        }
        join(join(join(fn_name, " (").as_str(), types.as_str()).as_str(), ")")
    }

    /// Get the value at the indexed position of a base type.
    ///
    /// An array takes an integer within its bounds. An object map takes a
    /// string: a key that is there gives its place; one that is not gives a new
    /// place that holds unit if `create` is set, and else a temporary unit. A
    /// string takes an integer within its bounds and gives the character there.
    /// Nothing else can be indexed.
    pub fn get_indexed_mut(
        &self,
        base: &mut Dynamic,
        idx: Dynamic,
        idx_pos: Position,
        op_pos: Position,
        create: bool,
    ) -> (r: Result<Target, EvalAltResult>)
        ensures
            target_view(r) == self.indexed(old(base)@, idx@, idx_pos, op_pos, create).0,
            final(base)@ == self.indexed(old(base)@, idx@, idx_pos, op_pos, create).1,
            r matches Ok(t) ==> t@.fits(final(base)@),
    {
        match base {
            Dynamic::Array(items) => match idx {
                Dynamic::Int(i) => {
                    if i >= 0 && (i as u64) < (items.len() as u64) {
                        Ok(Target::Place(i as usize))
                    } else {
                        Err(EvalAltResult::ErrorArrayBounds(items.len(), i, idx_pos))
                    }
                },
                _ => Err(EvalAltResult::ErrorNumericIndexExpr(idx_pos)),
            },
            Dynamic::ObjMap(entries) => match idx {
                Dynamic::Str(key) => match find_entry(entries, key.as_str()) {
                    Some(j) => Ok(Target::Place(j)),
                    None => {
                        if create {
                            let n = entries.len();
                            proof {
                                lemma_entries_push(entries@, (key, Dynamic::Unit));
                            }
                            entries.push((key, Dynamic::Unit));
                            Ok(Target::Place(n))
                        } else {
                            Ok(Target::Temp(Dynamic::Unit))
                        }
                    },
                },
                _ => Err(EvalAltResult::ErrorStringIndexExpr(idx_pos)),
            },
            Dynamic::Str(s) => match idx {
                Dynamic::Int(i) => {
                    let n = s.as_str().unicode_len();
                    if i >= 0 && (i as u64) < (n as u64) {
                        Ok(Target::StringChar(i as usize, s.as_str().get_char(i as usize)))
                    } else {
                        Err(EvalAltResult::ErrorStringBounds(n, i, idx_pos))
                    }
                },
                _ => Err(EvalAltResult::ErrorNumericIndexExpr(idx_pos)),
            },
            _ => {
                let shown = self.map_type_name(base.type_label()).to_owned();
                Err(EvalAltResult::ErrorIndexingType(shown, op_pos))
            },
        }
    }

    /// Universal method for calling functions either registered with the
    /// `Engine` or written in the script.
    ///
    /// In this order: a call one level too deep fails; a script function of
    /// this name and number of arguments is run; a native function of this name
    /// and these argument types is run, that of the engine's own table before
    /// those of the packages, newest first, and what `print` and `debug` return
    /// goes to their sinks and becomes unit; a getter or setter that was not
    /// found is an error; the default value, if there is one, is returned; else
    /// the function is not found.
    pub fn call_fn_raw(
        &self,
        scope: &mut Scope,
        fn_lib: &FunctionsLib,
        fn_name: &str,
        args: &mut Vec<Dynamic>,
        def_val: Option<&Dynamic>,
        pos: Position,
        level: usize,
    ) -> (r: Result<Dynamic, EvalAltResult>)
        ensures
            (CallOutcome {
                result: result_view(r),
                args: values_of(final(args)@),
                scope: final(scope)@,
            }) == self.call_outcome(
                old(scope)@,
                fn_lib@,
                fn_name@,
                values_of(old(args)@),
                opt_ref_view(def_val),
                pos,
                level as nat,
            ),
            final(args)@.len() == old(args)@.len(),
        decreases 10 * self.depth_left(level as nat) + 4,
    {
        // Check for stack overflow
        if self.too_deep(level) {
            return Err(EvalAltResult::ErrorStackOverflow(pos));
        }
        // First search in script-defined functions (can override built-in)

        match fn_lib.get_function(fn_name, args.len()) {
            Some(fn_def) => {
                return self.call_fn_from_lib(scope, fn_lib, fn_def, args, pos, level);
            },
            None => {},
        }
        // Search built-in's and external functions
        let hash = calc_fn_spec(fn_name, args);
        match self.lookup_native(hash) {
            Some(id) => {
                // Run external function
                match self.host.call_native(id, args, pos) {
                    Err(e) => Err(e),
                    Ok(result) => {
                        // See if the function match print/debug (which requires special processing)
                        if str_eq(fn_name, KEYWORD_PRINT) {
                            match result.as_str() {
                                Ok(text) => {
                                    self.host.print(text);
                                    Ok(Dynamic::Unit)
                                },
                                Err(name) => Err(
                                    EvalAltResult::ErrorMismatchOutputType(name.to_owned(), pos),
                                ),
                            }
                        } else if str_eq(fn_name, KEYWORD_DEBUG) {
                            match result.as_str() {
                                Ok(text) => {
                                    self.host.debug(text);
                                    Ok(Dynamic::Unit)
                                },
                                Err(name) => Err(
                                    EvalAltResult::ErrorMismatchOutputType(name.to_owned(), pos),
                                ),
                            }
                        } else {
                            Ok(result)
                        }
                    },
                }
            },
            None => {
                // Getter function not found?
                match extract_prop_from_getter(fn_name) {
                    Some(prop) => {
                        return Err(
                            EvalAltResult::ErrorDotExpr(
                                join(
                                    join("- property '", prop).as_str(),
                                    "' unknown or write-only",
                                ),
                                pos,
                            ),
                        );
                    },
                    None => {},
                }
                // Setter function not found?
                match extract_prop_from_setter(fn_name) {
                    Some(prop) => {
                        return Err(
                            EvalAltResult::ErrorDotExpr(
                                join(
                                    join("- property '", prop).as_str(),
                                    "' unknown or read-only",
                                ),
                                pos,
                            ),
                        );
                    },
                    None => {},
                }
                // Return default value (if any)
                match def_val {
                    Some(val) => Ok(val.clone()),
                    None => Err(
                        EvalAltResult::ErrorFunctionNotFound(self.describe(fn_name, args), pos),
                    ),
                }
            },
        }
    }

    /// Call a script-defined function: the parameters are bound to copies of
    /// the arguments on top of the scope, the body is evaluated one level
    /// deeper, and the scope is cut back to what it was.
    pub fn call_fn_from_lib(
        &self,
        scope: &mut Scope,
        fn_lib: &FunctionsLib,
        fn_def: &FnDef,
        args: &mut Vec<Dynamic>,
        pos: Position,
        level: usize,
    ) -> (r: Result<Dynamic, EvalAltResult>)
        ensures
            (CallOutcome {
                result: result_view(r),
                args: values_of(final(args)@),
                scope: final(scope)@,
            }) == self.lib_call_outcome(
                old(scope)@,
                fn_lib@,
                fn_def@,
                values_of(old(args)@),
                pos,
                level as nat,
            ),
            final(args)@ == old(args)@,
        decreases 10 * self.depth_left(level as nat) + 3,
    {
        if self.too_deep(level) {
            return Err(EvalAltResult::ErrorStackOverflow(pos));
        }
        let scope_len = scope.len();
        let mut state = State::new();

        // Put arguments into scope as variables
        let mut i: usize = 0;
        while i < fn_def.params.len() && i < args.len()
            invariant
                bound(old(scope)@, texts_of(fn_def.params@), values_of(args@), 0) == bound(
                    scope@,
                    texts_of(fn_def.params@),
                    values_of(args@),
                    i as int,
                ),
                scope@.len() == old(scope)@.len() + i,
                scope@.subrange(0, old(scope)@.len() as int) == old(scope)@,
            decreases fn_def.params.len() - i,
        {
            let ghost before = scope@;
            scope.push(fn_def.params[i].as_str(), args[i].clone());
            assert(scope@.subrange(0, old(scope)@.len() as int) =~= before.subrange(
                0,
                old(scope)@.len() as int,
            ));
            i += 1;
        }

        // Evaluate the function at one higher level of call depth
        let result = self.eval_stmt(scope, &mut state, fn_lib, &fn_def.body, level + 1);

        scope.rewind(scope_len);

        match result {
            Ok(v) => Ok(v),
            // Convert return statement to return value
            Err(EvalAltResult::Return(x, _)) => Ok(x),
            Err(err) => Err(err.set_position(pos)),
        }
    }

    /// Perform an actual function call, taking care of special functions:
    /// `type_of` with one argument gives the shown name of its type, and `eval`
    /// with one argument is refused here, both unless overridden; every other
    /// call is dispatched by name.
    pub fn exec_fn_call(
        &self,
        fn_lib: &FunctionsLib,
        fn_name: &str,
        args: &mut Vec<Dynamic>,
        def_val: Option<&Dynamic>,
        pos: Position,
        level: usize,
    ) -> (r: Result<Dynamic, EvalAltResult>)
        ensures
            result_view(r) == self.fn_call_outcome(
                fn_lib@,
                fn_name@,
                values_of(old(args)@),
                opt_ref_view(def_val),
                pos,
                level as nat,
            ).result,
            values_of(final(args)@) == self.fn_call_outcome(
                fn_lib@,
                fn_name@,
                values_of(old(args)@),
                opt_ref_view(def_val),
                pos,
                level as nat,
            ).args,
            final(args)@.len() == old(args)@.len(),
        decreases 10 * self.depth_left(level as nat) + 5,
    {
        if str_eq(fn_name, KEYWORD_TYPE_OF) && args.len() == 1 && !self.has_override(
            fn_lib,
            KEYWORD_TYPE_OF,
        ) {
            // type_of
            Ok(Dynamic::Str(self.map_type_name(args[0].type_label()).to_owned()))
        } else if str_eq(fn_name, KEYWORD_EVAL) && args.len() == 1 && !self.has_override(
            fn_lib,
            KEYWORD_EVAL,
        ) {
            // eval - reaching this point it must be a method-style call
            Err(
                EvalAltResult::ErrorRuntime(
                    "'eval' should not be called in method style. Try eval(...);".to_owned(),
                    pos,
                ),
            )
        } else {
            // Normal method call
            let mut scope = Scope::new();
            self.call_fn_raw(&mut scope, fn_lib, fn_name, args, def_val, pos, level)
        }
    }

    /// Evaluate a text string as a script - used primarily for 'eval'. The
    /// text is parsed, must define no function, and its statements are
    /// evaluated in the caller's scope, one level deeper.
    pub fn eval_script_expr(
        &self,
        scope: &mut Scope,
        fn_lib: &FunctionsLib,
        script: &Dynamic,
        pos: Position,
        level: usize,
    ) -> (r: Result<Dynamic, EvalAltResult>)
        ensures
            result_view(r) == self.script_outcome(old(scope)@, fn_lib@, script@, pos, level as nat).result,
            final(scope)@ == self.script_outcome(old(scope)@, fn_lib@, script@, pos, level as nat).scope,
        decreases 10 * self.depth_left(level as nat) + 6,
    {
        let text = match script.as_str() {
            Ok(s) => s,
            Err(name) => {
                return Err(EvalAltResult::ErrorMismatchOutputType(name.to_owned(), pos));
            },
        };
        if self.too_deep(level) {
            return Err(EvalAltResult::ErrorStackOverflow(pos));
        }
        // Compile the script text

        match self.host.compile(text) {
            Err((t, p)) => Err(EvalAltResult::ErrorParsing(t, p)),
            Ok((statements, functions)) => {
                // If new functions are defined within the eval string, it is an error
                if functions.len() > 0 {
                    return Err(
                        EvalAltResult::ErrorParsing(ParseErrorType::WrongFnDefinition, pos),
                    );
                }
                let mut state = State::new();
                // Evaluate the AST
                match self.eval_stmts(scope, &mut state, fn_lib, &statements, level + 1) {
                    Ok(v) => Ok(v),
                    Err(EvalAltResult::Return(x, _)) => Ok(x),
                    Err(err) => Err(err.set_position(pos)),
                }
            },
        }
    }

    /// What the `==` of the dispatch says of two values; `false` where no
    /// function answers.
    fn equals(&self, fn_lib: &FunctionsLib, a: &Dynamic, b: &Dynamic, pos: Position, level: usize) -> (r: Result<
        Dynamic,
        EvalAltResult,
    >)
        ensures
            result_view(r) == self.eq_outcome(fn_lib@, a@, b@, pos, level as nat),
        decreases 10 * self.depth_left(level as nat) + 6,
    {
        // WARNING - Always clone the values here because they'll be consumed by the function call.
        let mut args: Vec<Dynamic> = Vec::new();
        args.push(a.clone());
        args.push(b.clone());
        assert(values_of(args@) =~= seq![a@, b@]);
        let def_value = Dynamic::Bool(false);
        let mut scope = Scope::new();
        self.call_fn_raw(&mut scope, fn_lib, "==", &mut args, Some(&def_value), pos, level)
    }

    /// Whether a value is among the items of an array, by the `==` of the
    /// dispatch: the first item for which `==` gives `true` decides.
    fn in_array(&self, fn_lib: &FunctionsLib, lhs_value: &Dynamic, items: &Vec<Dynamic>, rhs_pos: Position, level: usize) -> (r: Result<
        Dynamic,
        EvalAltResult,
    >)
        ensures
            result_view(r) == self.in_array_outcome(
                fn_lib@,
                lhs_value@,
                values_of(items@),
                0,
                rhs_pos,
                level as nat,
            ),
        decreases 10 * self.depth_left(level as nat) + 7,
    {
        let mut i: usize = 0;
        // Call the `==` operator to compare each value
        while i < items.len()
            invariant
                i <= items.len(),
                self.in_array_outcome(
                    fn_lib@,
                    lhs_value@,
                    values_of(items@),
                    0,
                    rhs_pos,
                    level as nat,
                ) == self.in_array_outcome(
                    fn_lib@,
                    lhs_value@,
                    values_of(items@),
                    i as int,
                    rhs_pos,
                    level as nat,
                ),
            decreases items.len() - i,
        {
            match self.equals(fn_lib, lhs_value, &items[i], rhs_pos, level) {
                Err(e) => {
                    return Err(e);
                },
                Ok(v) => match v {
                    Dynamic::Bool(true) => {
                        return Ok(Dynamic::Bool(true));
                    },
                    _ => {},
                },
            }
            i += 1;
        }
        Ok(Dynamic::Bool(false))
    }

    /// Evaluate an 'in' expression on the values of both sides.
    ///
    /// In an array the value is looked for with `==`. In an object map a
    /// string or a character is looked for among the keys. In a string a
    /// string is looked for as a part, a character as a member.
    pub fn eval_in_expr(
        &self,
        fn_lib: &FunctionsLib,
        lhs_value: Dynamic,
        rhs_value: Dynamic,
        lhs_pos: Position,
        rhs_pos: Position,
        level: usize,
    ) -> (r: Result<Dynamic, EvalAltResult>)
        ensures
            result_view(r) == self.in_outcome(
                fn_lib@,
                lhs_value@,
                rhs_value@,
                lhs_pos,
                rhs_pos,
                level as nat,
            ),
        decreases 10 * self.depth_left(level as nat) + 8,
    {
        match rhs_value {
            Dynamic::Array(items) => {
                self.in_array(fn_lib, &lhs_value, &items, rhs_pos, level)
            },
            Dynamic::ObjMap(entries) => match lhs_value {
                // Only allows String or char
                Dynamic::Str(s) => Ok(Dynamic::Bool(find_entry(&entries, s.as_str()).is_some())),
                Dynamic::Char(c) => {
                    let key = char_to_string(c);
                    Ok(Dynamic::Bool(find_entry(&entries, key.as_str()).is_some()))
                },
                _ => Err(EvalAltResult::ErrorInExpr(lhs_pos)),
            },
            Dynamic::Str(text) => match lhs_value {
                // Only allows String or char
                Dynamic::Str(s) => Ok(Dynamic::Bool(str_contains(text.as_str(), s.as_str()))),
                Dynamic::Char(c) => {
                    let pattern = char_to_string(c);
                    Ok(Dynamic::Bool(str_contains(text.as_str(), pattern.as_str())))
                },
                _ => Err(EvalAltResult::ErrorInExpr(lhs_pos)),
            },
            _ => Err(EvalAltResult::ErrorInExpr(rhs_pos)),
        }
    }

    /// Evaluate, in source order, what a chain's right-hand side needs before
    /// it is walked, and add the values to `idx_values`: a placeholder for each
    /// property, the argument list of each method call, the value of each
    /// index. The last value added belongs to the first step of the walk.
    pub fn eval_indexed_chain(
        &self,
        scope: &mut Scope,
        state: &mut State,
        fn_lib: &FunctionsLib,
        expr: &Expr,
        idx_values: &mut Vec<Dynamic>,
        level: usize,
    ) -> (r: Result<(), EvalAltResult>)
        ensures
            (ListOutcome {
                result: match r {
                    Ok(_) => Ok(values_of(final(idx_values)@)),
                    Err(e) => Err(e@),
                },
                scope: final(scope)@,
                always_search: final(state).always_search,
            }) == self.indexes_outcome(
                old(scope)@,
                old(state).always_search,
                fn_lib@,
                expr@,
                values_of(old(idx_values)@),
                level as nat,
            ),
        decreases 10 * self.depth_left(level as nat) + 9, expr, 2int, 0int,
    {
        match expr {
            Expr::FnCall(_, arg_exprs, _, _) => {
                match self.eval_exprs(scope, state, fn_lib, arg_exprs, level) {
                    Ok(arg_values) => {
                        proof {
                            lemma_values_push(idx_values@, Dynamic::Array(arg_values));
                        }
                        idx_values.push(Dynamic::Array(arg_values));
                        Ok(())
                    },
                    Err(e) => Err(e),
                }
            },
            // Store a placeholder - no need to copy the property name
            Expr::Property(_, _) => {
                proof {
                    lemma_values_push(idx_values@, Dynamic::Unit);
                }
                idx_values.push(Dynamic::Unit);
                Ok(())
            },
            Expr::Index(_, _, _) => self.eval_step_indexes(scope, state, fn_lib, expr, idx_values, level),
            Expr::Dot(_, _, _) => self.eval_step_indexes(scope, state, fn_lib, expr, idx_values, level),
            _ => match self.eval_expr(scope, state, fn_lib, expr, level) {
                Ok(v) => {
                    proof {
                        lemma_values_push(idx_values@, v);
                    }
                    idx_values.push(v);
                    Ok(())
                },
                Err(e) => Err(e),
            },
        }
    }

    /// The part of `eval_indexed_chain` for a right-hand side that is itself
    /// a dot or an index expression.
    fn eval_step_indexes(
        &self,
        scope: &mut Scope,
        state: &mut State,
        fn_lib: &FunctionsLib,
        expr: &Expr,
        idx_values: &mut Vec<Dynamic>,
        level: usize,
    ) -> (r: Result<(), EvalAltResult>)
        ensures
            (ListOutcome {
                result: match r {
                    Ok(_) => Ok(values_of(final(idx_values)@)),
                    Err(e) => Err(e@),
                },
                scope: final(scope)@,
                always_search: final(state).always_search,
            }) == self.step_indexes_outcome(
                old(scope)@,
                old(state).always_search,
                fn_lib@,
                expr@,
                values_of(old(idx_values)@),
                level as nat,
            ),
        decreases 10 * self.depth_left(level as nat) + 9, expr, 1int, 1int,
    {
        let (lhs, rhs) = match expr {
            Expr::Index(lhs, rhs, _) => (&**lhs, &**rhs),
            Expr::Dot(lhs, rhs, _) => (&**lhs, &**rhs),
            _ => {
                return Ok(());
            },
        };
        assert(lhs@ is Property == lhs is Property);
        // Evaluate in left-to-right order
        let lhs_val = match lhs {
            // Store a placeholder in case of a property
            Expr::Property(_, _) => Dynamic::Unit,
            _ => match self.eval_expr(scope, state, fn_lib, lhs, level) {
                Ok(v) => v,
                Err(e) => {
                    return Err(e);
                },
            },
        };
        // Push in reverse order
        match self.eval_indexed_chain(scope, state, fn_lib, rhs, idx_values, level) {
            Err(e) => Err(e),
            Ok(_) => {
                proof {
                    lemma_values_push(idx_values@, lhs_val);
                }
                idx_values.push(lhs_val);
                Ok(())
            },
        }
    }

    /// Evaluate a dot/index chain, read (`new_val` is nothing) or written.
    ///
    /// What the right-hand side needs is evaluated first. A variable on the
    /// left is the place that the chain starts from; a constant refuses a
    /// write. Any other left-hand side is evaluated to a temporary and
    /// refuses a write.
    pub fn eval_dot_index_chain(
        &self,
        scope: &mut Scope,
        state: &mut State,
        fn_lib: &FunctionsLib,
        chain: &Expr,
        op_pos: Position,
        level: usize,
        new_val: Option<Dynamic>,
    ) -> (r: Result<Dynamic, EvalAltResult>)
        ensures
            outcome_of(r, final(scope), final(state)) == self.chain_outcome(
                old(scope)@,
                old(state).always_search,
                fn_lib@,
                chain@,
                op_pos,
                level as nat,
                opt_view(new_val),
            ),
        decreases 10 * self.depth_left(level as nat) + 9, chain, 0int, 0int,
    {
        let (dot_lhs, dot_rhs, is_index) = match chain {
            Expr::Index(lhs, rhs, _) => (&**lhs, &**rhs, true),
            Expr::Dot(lhs, rhs, _) => (&**lhs, &**rhs, false),
            _ => {
                return Err(EvalAltResult::ErrorDotExpr(String::new(), chain.position()));
            },
        };
        let mut idx_values: Vec<Dynamic> = Vec::new();
        assert(values_of(idx_values@) =~= Seq::<Value>::empty());

        match self.eval_indexed_chain(scope, state, fn_lib, dot_rhs, &mut idx_values, level) {
            Err(e) => {
                return Err(e);
            },
            Ok(_) => {},
        }
        assert(dot_lhs@ is Variable == dot_lhs is Variable);
        match dot_lhs {
            // id.??? or id[???]
            Expr::Variable(id, index, pos) => {
                assert(dot_lhs@ == ExprValue::Variable(id@, *index, *pos));
                let index = if state.always_search {
                    None
                } else {
                    *index
                };
                match search_scope(scope, id.as_str(), index, *pos) {
                    Err(e) => Err(e),
                    Ok((j, typ)) => {
                        // Constants cannot be modified
                        if typ == EntryType::Constant && new_val.is_some() {
                            return Err(EvalAltResult::ErrorAssignmentToConstant(id.clone(), *pos));
                        }
                        let ghost before = scope@;
                        let r = self.eval_dot_index_chain_helper(
                            fn_lib,
                            &mut scope.entries[j].value,
                            dot_rhs,
                            &mut idx_values,
                            is_index,
                            op_pos,
                            level,
                            new_val,
                        );
                        assert(scope@ =~= before.update(
                            j as int,
                            EntryValue { value: scope.entries[j as int].value@, ..before[j as int] },
                        ));
                        match r {
                            Ok((v, _)) => Ok(v),
                            Err(e) => Err(e),
                        }
                    },
                }
            },
            other => {
                // {expr}.??? = ??? or {expr}[???] = ???
                if new_val.is_some() {
                    return Err(EvalAltResult::ErrorAssignmentToUnknownLHS(other.position()));
                }
                // {expr}.??? or {expr}[???]
                match self.eval_expr(scope, state, fn_lib, dot_lhs, level) {
                    Err(e) => Err(e),
                    Ok(val) => {
                        let mut val = val;
                        match self.eval_dot_index_chain_helper(
                            fn_lib,
                            &mut val,
                            dot_rhs,
                            &mut idx_values,
                            is_index,
                            op_pos,
                            level,
                            new_val,
                        ) {
                            Ok((v, _)) => Ok(v),
                            Err(e) => Err(e),
                        }
                    },
                }
            },
        }
    }

    /// Chain-evaluate a dot/index chain: one step of the walk along it, and
    /// all steps after it.
    ///
    /// The step takes the last of the index values. In index mode the target
    /// is indexed by it: the walk goes on from what is found, or, at the end
    /// of the chain, what is found is written (the place is made if need be)
    /// or read. In dot mode a method is called with the target as its first
    /// argument; a property of an object map is the entry of that name; a
    /// property of anything else is read by its getter and written by its
    /// setter, and where the walk goes on from such a property, what the getter
    /// gave is written back by the setter if the rest of the walk may have
    /// changed it. The flag in the result says whether the target may have
    /// been changed.
    pub fn eval_dot_index_chain_helper(
        &self,
        fn_lib: &FunctionsLib,
        target: &mut Dynamic,
        rhs: &Expr,
        idx_values: &mut Vec<Dynamic>,
        is_index: bool,
        op_pos: Position,
        level: usize,
        new_val: Option<Dynamic>,
    ) -> (r: Result<(Dynamic, bool), EvalAltResult>)
        ensures
            (ChainOutcome {
                result: step_view(r),
                target: final(target)@,
                idx_values: values_of(final(idx_values)@),
            }) == self.helper_outcome(
                fn_lib@,
                old(target)@,
                rhs@,
                values_of(old(idx_values)@),
                is_index,
                op_pos,
                level as nat,
                opt_view(new_val),
            ),
        decreases 10 * self.depth_left(level as nat) + 9, rhs, 1int, 0int,
    {
        // Pop the last index value
        let ghost all = idx_values@;
        let idx_val = match idx_values.pop() {
            Some(v) => v,
            None => Dynamic::Unit,
        };
        proof {
            assert(idx_val@ == last_index(values_of(all)));
            assert(values_of(idx_values@) =~= rest_indexes(values_of(all)));
        }

        if is_index {
            match rhs {
                // xxx[idx].dot_rhs...
                Expr::Dot(idx, _, _) => self.chain_descend(
                    fn_lib,
                    target,
                    idx_val,
                    idx.position(),
                    rhs,
                    idx_values,
                    op_pos,
                    level,
                    new_val,
                ),
                // xxx[idx][dot_rhs]...
                Expr::Index(idx, _, _) => self.chain_descend(
                    fn_lib,
                    target,
                    idx_val,
                    idx.position(),
                    rhs,
                    idx_values,
                    op_pos,
                    level,
                    new_val,
                ),
                // xxx[rhs] = new_val, or xxx[rhs]
                _ => self.chain_terminal(target, idx_val, rhs.position(), rhs.position(), op_pos, new_val),
            }
        } else {
            match rhs {
                // xxx.fn_name(arg_expr_list)
                Expr::FnCall(fn_name, _, def_val, pos) => {
                    let mut args: Vec<Dynamic> = Vec::new();
                    args.push(take_value(target));
                    match idx_val {
                        Dynamic::Array(vals) => {
                            let mut vals = vals;
                            args.append(&mut vals);
                        },
                        _ => {},
                    }
                    assert(values_of(args@) =~= seq![old(target)@] + (match idx_val@ {
                        Value::Array(vals) => vals,
                        _ => Seq::empty(),
                    }));
                    // A function call is assumed to have side effects, so the value is changed
                    let r = self.exec_fn_call(fn_lib, fn_name.as_str(), &mut args, def_val.as_ref(), *pos, level);
                    *target = args.swap_remove(0);
                    match r {
                        Ok(v) => Ok((v, true)),
                        Err(e) => Err(e),
                    }
                },
                Expr::Property(id, pos) => {
                    if target.is_map() {
                        // {xxx:map}.id = ???, or {xxx:map}.id
                        self.chain_terminal(
                            target,
                            Dynamic::Str(id.clone()),
                            *pos,
                            rhs.position(),
                            op_pos,
                            new_val,
                        )
                    } else {
                        match new_val {
                            // xxx.id = ???
                            Some(v) => {
                                let fn_name = make_setter(id.as_str());
                                let mut args: Vec<Dynamic> = Vec::new();
                                args.push(take_value(target));
                                args.push(v);
                                assert(values_of(args@) =~= seq![old(target)@, v@]);
                                let r = self.exec_fn_call(fn_lib, fn_name.as_str(), &mut args, None, *pos, level);
                                *target = args.swap_remove(0);
                                match r {
                                    Ok(_) => Ok((Dynamic::Unit, true)),
                                    Err(e) => Err(e),
                                }
                            },
                            // xxx.id
                            None => {
                                let fn_name = make_getter(id.as_str());
                                let mut args: Vec<Dynamic> = Vec::new();
                                args.push(take_value(target));
                                assert(values_of(args@) =~= seq![old(target)@]);
                                let r = self.exec_fn_call(fn_lib, fn_name.as_str(), &mut args, None, *pos, level);
                                *target = args.swap_remove(0);
                                match r {
                                    Ok(v) => Ok((v, false)),
                                    Err(e) => Err(e),
                                }
                            },
                        }
                    }
                },
                // xxx.idx_lhs[idx_expr]
                Expr::Index(_, _, _) => self.chain_through_property(
                    fn_lib,
                    target,
                    rhs,
                    idx_values,
                    op_pos,
                    level,
                    new_val,
                ),
                // xxx.dot_lhs.rhs
                Expr::Dot(_, _, _) => self.chain_through_property(
                    fn_lib,
                    target,
                    rhs,
                    idx_values,
                    op_pos,
                    level,
                    new_val,
                ),
                // Syntax error
                _ => Err(EvalAltResult::ErrorDotExpr(String::new(), rhs.position())),
            }
        }
    }

    /// The end of a chain at an indexed place: a write through the handle
    /// (the place is made if need be), or a read of what the handle stands for.
    fn chain_terminal(
        &self,
        target: &mut Dynamic,
        idx_val: Dynamic,
        idx_pos: Position,
        set_pos: Position,
        op_pos: Position,
        new_val: Option<Dynamic>,
    ) -> (r: Result<(Dynamic, bool), EvalAltResult>)
        ensures
            step_view(r) == self.terminal(
                old(target)@,
                idx_val@,
                idx_pos,
                set_pos,
                Seq::empty(),
                op_pos,
                opt_view(new_val),
            ).result,
            final(target)@ == self.terminal(
                old(target)@,
                idx_val@,
                idx_pos,
                set_pos,
                Seq::empty(),
                op_pos,
                opt_view(new_val),
            ).target,
    {
        match new_val {
            Some(v) => match self.get_indexed_mut(target, idx_val, idx_pos, op_pos, true) {
                Err(e) => Err(e),
                Ok(t) => match t.set_value(target, v, set_pos) {
                    Ok(_) => Ok((Dynamic::Unit, true)),
                    Err(e) => Err(e),
                },
            },
            None => match self.get_indexed_mut(target, idx_val, idx_pos, op_pos, false) {
                Err(e) => Err(e),
                Ok(t) => Ok((t.clone_into_dynamic(target), false)),
            },
        }
    }

    /// A step in index mode that the walk goes on from: the target is indexed,
    /// the rest of the chain walks what is found, and a place keeps what the
    /// walk leaves there.
    fn chain_descend(
        &self,
        fn_lib: &FunctionsLib,
        target: &mut Dynamic,
        idx_val: Dynamic,
        idx_pos: Position,
        rhs: &Expr,
        idx_values: &mut Vec<Dynamic>,
        op_pos: Position,
        level: usize,
        new_val: Option<Dynamic>,
    ) -> (r: Result<(Dynamic, bool), EvalAltResult>)
        ensures
            (ChainOutcome {
                result: step_view(r),
                target: final(target)@,
                idx_values: values_of(final(idx_values)@),
            }) == self.descend(
                fn_lib@,
                old(target)@,
                idx_val@,
                idx_pos,
                rhs@,
                values_of(old(idx_values)@),
                op_pos,
                level as nat,
                opt_view(new_val),
            ),
        decreases 10 * self.depth_left(level as nat) + 9, rhs, 0int, 1int,
    {
        let (sub, pos, is_index) = match rhs {
            Expr::Index(_, sub, pos) => (&**sub, *pos, true),
            Expr::Dot(_, sub, pos) => (&**sub, *pos, false),
            _ => {
                return Err(EvalAltResult::ErrorDotExpr(String::new(), rhs.position()));
            },
        };
        match self.get_indexed_mut(target, idx_val, idx_pos, op_pos, false) {
            Err(e) => Err(e),
            Ok(t) => self.walk_on(fn_lib, target, t, sub, idx_values, is_index, pos, level, new_val),
        }
    }

    /// Walk the rest of a chain from what a handle stands for: a place keeps
    /// what the walk leaves there, a temporary or a character does not.
    fn walk_on(
        &self,
        fn_lib: &FunctionsLib,
        base: &mut Dynamic,
        t: Target,
        sub: &Expr,
        idx_values: &mut Vec<Dynamic>,
        is_index: bool,
        pos: Position,
        level: usize,
        new_val: Option<Dynamic>,
    ) -> (r: Result<(Dynamic, bool), EvalAltResult>)
        requires
            t@.fits(old(base)@),
        ensures
            (ChainOutcome {
                result: step_view(r),
                target: t@.content(old(base)@),
                idx_values: values_of(final(idx_values)@),
            }) == (ChainOutcome {
                target: t@.content(old(base)@),
                ..self.helper_outcome(
                    fn_lib@,
                    t@.content(old(base)@),
                    sub@,
                    values_of(old(idx_values)@),
                    is_index,
                    pos,
                    level as nat,
                    opt_view(new_val),
                )
            }),
            final(base)@ == t@.put(
                old(base)@,
                self.helper_outcome(
                    fn_lib@,
                    t@.content(old(base)@),
                    sub@,
                    values_of(old(idx_values)@),
                    is_index,
                    pos,
                    level as nat,
                    opt_view(new_val),
                ).target,
            ),
        decreases 10 * self.depth_left(level as nat) + 9, sub, 1int, 1int,
    {
        match t {
            Target::Place(k) => match base {
                Dynamic::Array(items) => {
                    let ghost before = items@;
                    let r = self.eval_dot_index_chain_helper(
                        fn_lib,
                        &mut items[k],
                        sub,
                        idx_values,
                        is_index,
                        pos,
                        level,
                        new_val,
                    );
                    proof {
                        assert(items@ =~= before.update(k as int, items@[k as int]));
                        lemma_values_update(before, k as int, items@[k as int]);
                    }
                    r
                },
                Dynamic::ObjMap(entries) => {
                    let ghost before = entries@;
                    let r = self.eval_dot_index_chain_helper(
                        fn_lib,
                        &mut entries[k].1,
                        sub,
                        idx_values,
                        is_index,
                        pos,
                        level,
                        new_val,
                    );
                    proof {
                        assert(entries@ =~= before.update(k as int, entries@[k as int]));
                        lemma_entries_update(before, k as int, entries@[k as int]);
                    }
                    r
                },
                _ => Err(EvalAltResult::ErrorDotExpr(String::new(), pos)),
            },
            Target::Temp(v) => {
                let mut v = v;
                self.eval_dot_index_chain_helper(
                    fn_lib,
                    &mut v,
                    sub,
                    idx_values,
                    is_index,
                    pos,
                    level,
                    new_val,
                )
            },
            Target::StringChar(_, c) => {
                let mut v = Dynamic::Char(c);
                self.eval_dot_index_chain_helper(
                    fn_lib,
                    &mut v,
                    sub,
                    idx_values,
                    is_index,
                    pos,
                    level,
                    new_val,
                )
            },
        }
    }

    /// A step in dot mode that the walk goes on from: the left part must be a
    /// property. On an object map the walk goes on from the entry of that
    /// name; on anything else it goes through the property's getter and setter.
    fn chain_through_property(
        &self,
        fn_lib: &FunctionsLib,
        target: &mut Dynamic,
        rhs: &Expr,
        idx_values: &mut Vec<Dynamic>,
        op_pos: Position,
        level: usize,
        new_val: Option<Dynamic>,
    ) -> (r: Result<(Dynamic, bool), EvalAltResult>)
        ensures
            (ChainOutcome {
                result: step_view(r),
                target: final(target)@,
                idx_values: values_of(final(idx_values)@),
            }) == self.through_property(
                fn_lib@,
                old(target)@,
                rhs@,
                values_of(old(idx_values)@),
                op_pos,
                level as nat,
                opt_view(new_val),
            ),
        decreases 10 * self.depth_left(level as nat) + 9, rhs, 0int, 1int,
    {
        let (dot_lhs, sub, pos, is_index) = match rhs {
            Expr::Index(lhs, sub, pos) => (&**lhs, &**sub, *pos, true),
            Expr::Dot(lhs, sub, pos) => (&**lhs, &**sub, *pos, false),
            _ => {
                return Err(EvalAltResult::ErrorDotExpr(String::new(), rhs.position()));
            },
        };
        assert(dot_lhs@ is Property == dot_lhs is Property);
        let (id, id_pos) = match dot_lhs {
            Expr::Property(id, id_pos) => (id, *id_pos),
            _ => {
                // Syntax error
                return Err(EvalAltResult::ErrorDotExpr(String::new(), rhs.position()));
            },
        };
        assert(dot_lhs@ == ExprValue::Property(id@, id_pos));
        if target.is_map() {
            // {xxx:map}.idx_lhs[idx_expr], or {xxx:map}.dot_lhs.rhs
            match self.get_indexed_mut(target, Dynamic::Str(id.clone()), id_pos, op_pos, false) {
                Err(e) => Err(e),
                Ok(t) => self.walk_on(fn_lib, target, t, sub, idx_values, is_index, pos, level, new_val),
            }
        } else {
            // xxx.idx_lhs[idx_expr], or xxx.dot_lhs.rhs
            self.chain_through_accessors(fn_lib, target, rhs, idx_values, level, new_val)
        }
    }

    /// A step in dot mode through a property of a value that is no object
    /// map: the getter gives a temporary, the walk goes on from it, and if the
    /// walk may have changed it, the setter writes it back.
    fn chain_through_accessors(
        &self,
        fn_lib: &FunctionsLib,
        target: &mut Dynamic,
        rhs: &Expr,
        idx_values: &mut Vec<Dynamic>,
        level: usize,
        new_val: Option<Dynamic>,
    ) -> (r: Result<(Dynamic, bool), EvalAltResult>)
        ensures
            (ChainOutcome {
                result: step_view(r),
                target: final(target)@,
                idx_values: values_of(final(idx_values)@),
            }) == self.through_accessors(
                fn_lib@,
                old(target)@,
                rhs@,
                values_of(old(idx_values)@),
                level as nat,
                opt_view(new_val),
            ),
        decreases 10 * self.depth_left(level as nat) + 9, rhs, 0int, 0int,
    {
        let (dot_lhs, sub, pos, is_index) = match rhs {
            Expr::Index(lhs, sub, pos) => (&**lhs, &**sub, *pos, true),
            Expr::Dot(lhs, sub, pos) => (&**lhs, &**sub, *pos, false),
            _ => {
                return Err(EvalAltResult::ErrorDotExpr(String::new(), rhs.position()));
            },
        };
        assert(dot_lhs@ is Property == dot_lhs is Property);
        let (id, id_pos) = match dot_lhs {
            Expr::Property(id, id_pos) => (id, *id_pos),
            _ => {
                // Syntax error
                return Err(EvalAltResult::ErrorDotExpr(String::new(), rhs.position()));
            },
        };
        assert(dot_lhs@ == ExprValue::Property(id@, id_pos));
        let getter = make_getter(id.as_str());
        let mut args: Vec<Dynamic> = Vec::new();
        args.push(take_value(target));
        assert(values_of(args@) =~= seq![old(target)@]);
        let g = self.exec_fn_call(fn_lib, getter.as_str(), &mut args, None, id_pos, level);
        *target = args.swap_remove(0);
        match g {
            Err(e) => Err(e),
            Ok(got) => {
                let mut got = got;
                let h = self.eval_dot_index_chain_helper(
                    fn_lib,
                    &mut got,
                    sub,
                    idx_values,
                    is_index,
                    pos,
                    level,
                    new_val,
                );
                match h {
                    Ok((v, true)) => {
                        // Feed the value back via a setter just in case it has been updated
                        let setter = make_setter(id.as_str());
                        self.write_back(fn_lib, target, setter.as_str(), got, v, Ghost(values_of(idx_values@)), id_pos, level)
                    },
                    other => other,
                }
            },
        }
    }

    /// Give a setter the value that a walk may have changed. A missing
    /// setter is passed over in silence: the property is read-only.
    fn write_back(
        &self,
        fn_lib: &FunctionsLib,
        target: &mut Dynamic,
        setter: &str,
        changed: Dynamic,
        v: Dynamic,
        Ghost(rest): Ghost<Seq<Value>>,
        pos: Position,
        level: usize,
    ) -> (r: Result<(Dynamic, bool), EvalAltResult>)
        ensures
            (ChainOutcome { result: step_view(r), target: final(target)@, idx_values: rest })
                == self.written_back(
                fn_lib@,
                old(target)@,
                setter@,
                changed@,
                v@,
                rest,
                pos,
                level as nat,
            ),
        decreases 10 * self.depth_left(level as nat) + 6,
    {
        let mut args: Vec<Dynamic> = Vec::new();
        args.push(take_value(target));
        args.push(changed);
        assert(values_of(args@) =~= seq![old(target)@, changed@]);
        let s = self.exec_fn_call(fn_lib, setter, &mut args, None, pos, level);
        *target = args.swap_remove(0);
        match s {
            Ok(_) => Ok((v, true)),
            // If there is no setter, no need to feed it back because the property is read-only
            Err(EvalAltResult::ErrorDotExpr(_, _)) => Ok((v, true)),
            Err(e) => Err(e),
        }
    }

    /// Evaluate a list of expressions in order.
    pub fn eval_exprs(
        &self,
        scope: &mut Scope,
        state: &mut State,
        fn_lib: &FunctionsLib,
        exprs: &Vec<Expr>,
        level: usize,
    ) -> (r: Result<Vec<Dynamic>, EvalAltResult>)
        ensures
            (ListOutcome {
                result: list_view(r),
                scope: final(scope)@,
                always_search: final(state).always_search,
            }) == self.exprs_outcome(
                old(scope)@,
                old(state).always_search,
                fn_lib@,
                exprs_of(exprs@),
                0,
                Seq::empty(),
                level as nat,
            ),
        decreases 10 * self.depth_left(level as nat) + 9, exprs, 0int, exprs.len(),
    {
        let mut values: Vec<Dynamic> = Vec::new();
        let mut i: usize = 0;
        assert(values_of(values@) =~= Seq::<Value>::empty());
        while i < exprs.len()
            invariant
                i <= exprs.len(),
                self.exprs_outcome(
                    old(scope)@,
                    old(state).always_search,
                    fn_lib@,
                    exprs_of(exprs@),
                    0,
                    Seq::empty(),
                    level as nat,
                ) == self.exprs_outcome(
                    scope@,
                    state.always_search,
                    fn_lib@,
                    exprs_of(exprs@),
                    i as int,
                    values_of(values@),
                    level as nat,
                ),
            decreases exprs.len() - i,
        {
            match self.eval_expr(scope, state, fn_lib, &exprs[i], level) {
                Err(e) => {
                    return Err(e);
                },
                Ok(v) => {
                    proof {
                        lemma_values_push(values@, v);
                    }
                    values.push(v);
                },
            }
            i += 1;
        }
        Ok(values)
    }

    /// Evaluate the entries of an object map literal in order.
    pub fn eval_items(
        &self,
        scope: &mut Scope,
        state: &mut State,
        fn_lib: &FunctionsLib,
        items: &Vec<(String, Expr, Position)>,
        level: usize,
    ) -> (r: Result<Vec<(String, Dynamic)>, EvalAltResult>)
        ensures
            (EntriesOutcome {
                result: items_view(r),
                scope: final(scope)@,
                always_search: final(state).always_search,
            }) == self.items_outcome(
                old(scope)@,
                old(state).always_search,
                fn_lib@,
                items_of(items@),
                0,
                Seq::empty(),
                level as nat,
            ),
        decreases 10 * self.depth_left(level as nat) + 9, items, 0int, items.len(),
    {
        let mut entries: Vec<(String, Dynamic)> = Vec::new();
        let mut i: usize = 0;
        assert(entries_of(entries@) =~= Seq::<(Seq<char>, Value)>::empty());
        while i < items.len()
            invariant
                i <= items.len(),
                self.items_outcome(
                    old(scope)@,
                    old(state).always_search,
                    fn_lib@,
                    items_of(items@),
                    0,
                    Seq::empty(),
                    level as nat,
                ) == self.items_outcome(
                    scope@,
                    state.always_search,
                    fn_lib@,
                    items_of(items@),
                    i as int,
                    entries_of(entries@),
                    level as nat,
                ),
            decreases items.len() - i,
        {
            match self.eval_expr(scope, state, fn_lib, &items[i].1, level) {
                Err(e) => {
                    return Err(e);
                },
                Ok(v) => {
                    let key = items[i].0.clone();
                    proof {
                        lemma_entries_push(entries@, (key, v));
                    }
                    entries.push((key, v));
                },
            }
            i += 1;
        }
        Ok(entries)
    }

    /// Evaluate statements in order: the value of the last one is the
    /// result, and the first error ends the evaluation.
    pub fn eval_stmts(
        &self,
        scope: &mut Scope,
        state: &mut State,
        fn_lib: &FunctionsLib,
        stmts: &Vec<Stmt>,
        level: usize,
    ) -> (r: Result<Dynamic, EvalAltResult>)
        ensures
            outcome_of(r, final(scope), final(state)) == self.stmts_outcome(
                old(scope)@,
                old(state).always_search,
                fn_lib@,
                stmts_of(stmts@),
                0,
                Value::Unit,
                level as nat,
            ),
        decreases 10 * self.depth_left(level as nat) + 9, stmts, 0int, stmts.len(),
    {
        let mut last = Dynamic::Unit;
        let mut i: usize = 0;
        while i < stmts.len()
            invariant
                i <= stmts.len(),
                self.stmts_outcome(
                    old(scope)@,
                    old(state).always_search,
                    fn_lib@,
                    stmts_of(stmts@),
                    0,
                    Value::Unit,
                    level as nat,
                ) == self.stmts_outcome(
                    scope@,
                    state.always_search,
                    fn_lib@,
                    stmts_of(stmts@),
                    i as int,
                    last@,
                    level as nat,
                ),
            decreases stmts.len() - i,
        {
            match self.eval_stmt(scope, state, fn_lib, &stmts[i], level) {
                Err(e) => {
                    return Err(e);
                },
                Ok(v) => {
                    last = v;
                },
            }
            i += 1;
        }
        Ok(last)
    }

    /// Evaluate an expression.
    pub fn eval_expr(
        &self,
        scope: &mut Scope,
        state: &mut State,
        fn_lib: &FunctionsLib,
        expr: &Expr,
        level: usize,
    ) -> (r: Result<Dynamic, EvalAltResult>)
        ensures
            outcome_of(r, final(scope), final(state)) == self.expr_outcome(
                old(scope)@,
                old(state).always_search,
                fn_lib@,
                expr@,
                level as nat,
            ),
        decreases 10 * self.depth_left(level as nat) + 9, expr, 1int, 0int,
    {
        match expr {
            Expr::IntegerConstant(i, _) => Ok(Dynamic::Int(*i)),
            Expr::CharConstant(c, _) => Ok(Dynamic::Char(*c)),
            Expr::StringConstant(s, _) => Ok(Dynamic::Str(s.clone())),
            Expr::True(_) => Ok(Dynamic::Bool(true)),
            Expr::False(_) => Ok(Dynamic::Bool(false)),
            Expr::Unit(_) => Ok(Dynamic::Unit),
            Expr::Variable(id, index, pos) => {
                let index = if state.always_search {
                    None
                } else {
                    *index
                };
                match search_scope(scope, id.as_str(), index, *pos) {
                    Ok((j, _)) => Ok(scope.entries[j].value.clone()),
                    Err(e) => Err(e),
                }
            },
            Expr::Property(_, pos) => Err(EvalAltResult::ErrorDotExpr(String::new(), *pos)),
            // Statement block
            Expr::Stmt(stmt, _) => self.eval_stmt(scope, state, fn_lib, stmt, level),
            // lhs = rhs
            Expr::Assignment(_, _, _) => self.eval_assignment(scope, state, fn_lib, expr, level),
            // lhs[idx_expr]
            Expr::Index(_, _, op_pos) => self.eval_dot_index_chain(
                scope,
                state,
                fn_lib,
                expr,
                *op_pos,
                level,
                None,
            ),
            // lhs.dot_rhs
            Expr::Dot(_, _, op_pos) => self.eval_dot_index_chain(
                scope,
                state,
                fn_lib,
                expr,
                *op_pos,
                level,
                None,
            ),
            Expr::Array(contents, _) => match self.eval_exprs(scope, state, fn_lib, contents, level) {
                Ok(values) => Ok(Dynamic::Array(values)),
                Err(e) => Err(e),
            },
            Expr::ObjMap(contents, _) => match self.eval_items(scope, state, fn_lib, contents, level) {
                Ok(entries) => Ok(Dynamic::ObjMap(entries)),
                Err(e) => Err(e),
            },
            // Normal function call
            Expr::FnCall(_, _, _, _) => self.eval_call_expr(scope, state, fn_lib, expr, level),
            Expr::In(_, _, _) => self.eval_in(scope, state, fn_lib, expr, level),
            Expr::And(_, _, _) => self.eval_and(scope, state, fn_lib, expr, level),
            Expr::Or(_, _, _) => self.eval_or(scope, state, fn_lib, expr, level),
        }
    }

    /// Evaluate an assignment: the right-hand side first, then the write.
    fn eval_assignment(
        &self,
        scope: &mut Scope,
        state: &mut State,
        fn_lib: &FunctionsLib,
        expr: &Expr,
        level: usize,
    ) -> (r: Result<Dynamic, EvalAltResult>)
        requires
            expr is Assignment,
        ensures
            outcome_of(r, final(scope), final(state)) == self.assignment_outcome(
                old(scope)@,
                old(state).always_search,
                fn_lib@,
                expr@,
                level as nat,
            ),
        decreases 10 * self.depth_left(level as nat) + 9, expr, 0int, 1int,
    {
        match expr {
            Expr::Assignment(_, rhs, _) => {
                match self.eval_expr(scope, state, fn_lib, rhs, level) {
                    Ok(rhs_val) => self.assign_value(scope, state, fn_lib, expr, rhs_val, level),
                    Err(e) => Err(e),
                }
            },
            _ => Ok(Dynamic::Unit),
        }
    }

    /// Assign a value to the left-hand side of an assignment. A variable
    /// takes the value unless it is a constant. An index or a dot expression
    /// is written as a chain. A constant expression refuses, and so does
    /// everything else.
    fn assign_value(
        &self,
        scope: &mut Scope,
        state: &mut State,
        fn_lib: &FunctionsLib,
        expr: &Expr,
        rhs_val: Dynamic,
        level: usize,
    ) -> (r: Result<Dynamic, EvalAltResult>)
        requires
            expr is Assignment,
        ensures
            outcome_of(r, final(scope), final(state)) == self.assigned(
                old(scope)@,
                old(state).always_search,
                fn_lib@,
                expr@,
                rhs_val@,
                level as nat,
            ),
        decreases 10 * self.depth_left(level as nat) + 9, expr, 0int, 0int,
    {
        match expr {
            Expr::Assignment(lhs, _, op_pos) => match &**lhs {
                // name = rhs
                Expr::Variable(name, index, pos) => {
                    let index = if state.always_search {
                        None
                    } else {
                        *index
                    };
                    match search_scope(scope, name.as_str(), index, *pos) {
                        Err(e) => Err(e),
                        Ok((_, EntryType::Constant)) => Err(
                            EvalAltResult::ErrorAssignmentToConstant(name.clone(), *op_pos),
                        ),
                        Ok((j, EntryType::Normal)) => {
                            scope.set_at(j, rhs_val);
                            Ok(Dynamic::Unit)
                        },
                    }
                },
                // idx_lhs[idx_expr] = rhs
                Expr::Index(_, _, idx_pos) => self.eval_dot_index_chain(
                    scope,
                    state,
                    fn_lib,
                    lhs,
                    *idx_pos,
                    level,
                    Some(rhs_val),
                ),
                // dot_lhs.dot_rhs = rhs
                Expr::Dot(_, _, _) => self.eval_dot_index_chain(
                    scope,
                    state,
                    fn_lib,
                    lhs,
                    *op_pos,
                    level,
                    Some(rhs_val),
                ),
                other => {
                    if other.is_constant() {
                        // Error assignment to constant
                        Err(
                            EvalAltResult::ErrorAssignmentToConstant(
                                other.get_constant_str(),
                                other.position(),
                            ),
                        )
                    } else {
                        // Syntax error
                        Err(EvalAltResult::ErrorAssignmentToUnknownLHS(other.position()))
                    }
                },
            },
            _ => Ok(Dynamic::Unit),
        }
    }

    /// Evaluate a function call expression: the arguments are evaluated in
    /// order; `eval` with one argument, unless overridden, runs the argument as
    /// a script in the current scope; every other call goes through the
    /// dispatch.
    fn eval_call_expr(
        &self,
        scope: &mut Scope,
        state: &mut State,
        fn_lib: &FunctionsLib,
        expr: &Expr,
        level: usize,
    ) -> (r: Result<Dynamic, EvalAltResult>)
        requires
            expr is FnCall,
        ensures
            outcome_of(r, final(scope), final(state)) == self.call_expr_outcome(
                old(scope)@,
                old(state).always_search,
                fn_lib@,
                expr@,
                level as nat,
            ),
        decreases 10 * self.depth_left(level as nat) + 9, expr, 0int, 0int,
    {
        match expr {
            Expr::FnCall(fn_name, arg_exprs, def_val, pos) => {
                let mut arg_values = match self.eval_exprs(scope, state, fn_lib, arg_exprs, level) {
                    Ok(v) => v,
                    Err(e) => {
                        return Err(e);
                    },
                };
                if str_eq(fn_name.as_str(), KEYWORD_EVAL) && arg_values.len() == 1 && arg_exprs.len()
                    == 1 && !self.has_override(fn_lib, KEYWORD_EVAL) {
                    // eval - only in function call style
                    let prev_len = scope.len();

                    // Evaluate the text string as a script
                    let result = self.eval_script_expr(
                        scope,
                        fn_lib,
                        &arg_values[0],
                        arg_exprs[0].position(),
                        level,
                    );

                    if result.is_ok() && scope.len() != prev_len {
                        // IMPORTANT! If the eval defines new variables in the current scope,
                        //            all variable offsets from this point on will be mis-aligned.
                        state.always_search = true;
                    }
                    result
                } else {
                    // Normal function call - except for eval (handled above)
                    self.exec_fn_call(
                        fn_lib,
                        fn_name.as_str(),
                        &mut arg_values,
                        def_val.as_ref(),
                        *pos,
                        level,
                    )
                }
            },
            _ => Ok(Dynamic::Unit),
        }
    }

    /// Evaluate `lhs in rhs`: both sides, the left one first, then the test.
    fn eval_in(
        &self,
        scope: &mut Scope,
        state: &mut State,
        fn_lib: &FunctionsLib,
        expr: &Expr,
        level: usize,
    ) -> (r: Result<Dynamic, EvalAltResult>)
        requires
            expr is In,
        ensures
            outcome_of(r, final(scope), final(state)) == self.in_expr_outcome(
                old(scope)@,
                old(state).always_search,
                fn_lib@,
                expr@,
                level as nat,
            ),
        decreases 10 * self.depth_left(level as nat) + 9, expr, 0int, 0int,
    {
        match expr {
            Expr::In(lhs, rhs, _) => {
                let lhs_value = match self.eval_expr(scope, state, fn_lib, lhs, level) {
                    Ok(v) => v,
                    Err(e) => {
                        return Err(e);
                    },
                };
                let rhs_value = match self.eval_expr(scope, state, fn_lib, rhs, level) {
                    Ok(v) => v,
                    Err(e) => {
                        return Err(e);
                    },
                };
                self.eval_in_expr(fn_lib, lhs_value, rhs_value, lhs.position(), rhs.position(), level)
            },
            _ => Ok(Dynamic::Unit),
        }
    }

    /// Evaluate `lhs && rhs`, short-circuit.
    fn eval_and(
        &self,
        scope: &mut Scope,
        state: &mut State,
        fn_lib: &FunctionsLib,
        expr: &Expr,
        level: usize,
    ) -> (r: Result<Dynamic, EvalAltResult>)
        requires
            expr is And,
        ensures
            outcome_of(r, final(scope), final(state)) == self.and_outcome(
                old(scope)@,
                old(state).always_search,
                fn_lib@,
                expr@,
                level as nat,
            ),
        decreases 10 * self.depth_left(level as nat) + 9, expr, 0int, 0int,
    {
        match expr {
            Expr::And(lhs, rhs, _) => {
                match self.eval_expr(scope, state, fn_lib, lhs, level) {
                    Err(e) => Err(e),
                    Ok(Dynamic::Bool(false)) => Ok(Dynamic::Bool(false)),
                    Ok(Dynamic::Bool(true)) => match self.eval_expr(scope, state, fn_lib, rhs, level) {
                        Err(e) => Err(e),
                        Ok(Dynamic::Bool(b)) => Ok(Dynamic::Bool(b)),
                        Ok(_) => Err(
                            EvalAltResult::ErrorBooleanArgMismatch("AND".to_owned(), rhs.position()),
                        ),
                    },
                    Ok(_) => Err(
                        EvalAltResult::ErrorBooleanArgMismatch("AND".to_owned(), lhs.position()),
                    ),
                }
            },
            _ => Ok(Dynamic::Unit),
        }
    }

    /// Evaluate `lhs || rhs`, short-circuit.
    fn eval_or(
        &self,
        scope: &mut Scope,
        state: &mut State,
        fn_lib: &FunctionsLib,
        expr: &Expr,
        level: usize,
    ) -> (r: Result<Dynamic, EvalAltResult>)
        requires
            expr is Or,
        ensures
            outcome_of(r, final(scope), final(state)) == self.or_outcome(
                old(scope)@,
                old(state).always_search,
                fn_lib@,
                expr@,
                level as nat,
            ),
        decreases 10 * self.depth_left(level as nat) + 9, expr, 0int, 0int,
    {
        match expr {
            Expr::Or(lhs, rhs, _) => {
                match self.eval_expr(scope, state, fn_lib, lhs, level) {
                    Err(e) => Err(e),
                    Ok(Dynamic::Bool(true)) => Ok(Dynamic::Bool(true)),
                    Ok(Dynamic::Bool(false)) => match self.eval_expr(scope, state, fn_lib, rhs, level) {
                        Err(e) => Err(e),
                        Ok(Dynamic::Bool(b)) => Ok(Dynamic::Bool(b)),
                        Ok(_) => Err(
                            EvalAltResult::ErrorBooleanArgMismatch("OR".to_owned(), rhs.position()),
                        ),
                    },
                    Ok(_) => Err(
                        EvalAltResult::ErrorBooleanArgMismatch("OR".to_owned(), lhs.position()),
                    ),
                }
            },
            _ => Ok(Dynamic::Unit),
        }
    }

    /// Run the rounds of a `while` loop.
    fn eval_while(
        &self,
        scope: &mut Scope,
        state: &mut State,
        fn_lib: &FunctionsLib,
        stmt: &Stmt,
        level: usize,
    ) -> (r: Result<Dynamic, EvalAltResult>)
        requires
            stmt is While,
        ensures
            outcome_of(r, final(scope), final(state)) == self.while_outcome(
                old(scope)@,
                old(state).always_search,
                fn_lib@,
                stmt@,
                self.max_loop_rounds as nat,
                level as nat,
            ),
        decreases 10 * self.depth_left(level as nat) + 9, stmt, 0int, 0int,
    {
        match stmt {
            Stmt::While(guard, body) => {
                let mut rounds: u64 = self.max_loop_rounds;
                loop
                    invariant
                        *stmt == Stmt::While(*guard, *body),
                        self.while_outcome(
                            old(scope)@,
                            old(state).always_search,
                            fn_lib@,
                            stmt@,
                            self.max_loop_rounds as nat,
                            level as nat,
                        ) == self.while_outcome(
                            scope@,
                            state.always_search,
                            fn_lib@,
                            stmt@,
                            rounds as nat,
                            level as nat,
                        ),
                    decreases rounds,
                {
                    match self.eval_expr(scope, state, fn_lib, guard, level) {
                        Err(e) => {
                            return Err(e);
                        },
                        Ok(Dynamic::Bool(true)) => {
                            if rounds == 0 {
                                return Err(EvalAltResult::ErrorTooManyOperations(guard.position()));
                            }
                            match self.eval_stmt(scope, state, fn_lib, body, level) {
                                Ok(_) => {},
                                Err(EvalAltResult::ErrorLoopBreak(false, _)) => {},
                                Err(EvalAltResult::ErrorLoopBreak(true, _)) => {
                                    return Ok(Dynamic::Unit);
                                },
                                Err(e) => {
                                    return Err(e);
                                },
                            }
                            rounds -= 1;
                        },
                        Ok(Dynamic::Bool(false)) => {
                            return Ok(Dynamic::Unit);
                        },
                        Ok(_) => {
                            return Err(EvalAltResult::ErrorLogicGuard(guard.position()));
                        },
                    }
                }
            },
            _ => Ok(Dynamic::Unit),
        }
    }

    /// Run the rounds of a `loop`.
    fn eval_loop(
        &self,
        scope: &mut Scope,
        state: &mut State,
        fn_lib: &FunctionsLib,
        stmt: &Stmt,
        level: usize,
    ) -> (r: Result<Dynamic, EvalAltResult>)
        requires
            stmt is Loop,
        ensures
            outcome_of(r, final(scope), final(state)) == self.loop_outcome(
                old(scope)@,
                old(state).always_search,
                fn_lib@,
                stmt@,
                self.max_loop_rounds as nat,
                level as nat,
            ),
        decreases 10 * self.depth_left(level as nat) + 9, stmt, 0int, 0int,
    {
        match stmt {
            Stmt::Loop(body) => {
                let mut rounds: u64 = self.max_loop_rounds;
                loop
                    invariant
                        *stmt == Stmt::Loop(*body),
                        self.loop_outcome(
                            old(scope)@,
                            old(state).always_search,
                            fn_lib@,
                            stmt@,
                            self.max_loop_rounds as nat,
                            level as nat,
                        ) == self.loop_outcome(
                            scope@,
                            state.always_search,
                            fn_lib@,
                            stmt@,
                            rounds as nat,
                            level as nat,
                        ),
                    decreases rounds,
                {
                    if rounds == 0 {
                        return Err(EvalAltResult::ErrorTooManyOperations(body.position()));
                    }
                    match self.eval_stmt(scope, state, fn_lib, body, level) {
                        Ok(_) => {},
                        Err(EvalAltResult::ErrorLoopBreak(false, _)) => {},
                        Err(EvalAltResult::ErrorLoopBreak(true, _)) => {
                            return Ok(Dynamic::Unit);
                        },
                        Err(e) => {
                            return Err(e);
                        },
                    }
                    rounds -= 1;
                }
            },
            _ => Ok(Dynamic::Unit),
        }
    }

    /// Run the rounds of a `for` loop over the given items, the loop variable
    /// in the entry at `slot`, and take the loop variable off the scope.
    fn eval_for(
        &self,
        scope: &mut Scope,
        state: &mut State,
        fn_lib: &FunctionsLib,
        stmt: &Stmt,
        items: Vec<Dynamic>,
        slot: usize,
        level: usize,
    ) -> (r: Result<Dynamic, EvalAltResult>)
        requires
            stmt is For,
        ensures
            outcome_of(r, final(scope), final(state)) == self.for_outcome(
                old(scope)@,
                old(state).always_search,
                fn_lib@,
                stmt@,
                values_of(items@),
                0,
                slot as int,
                level as nat,
            ),
        decreases 10 * self.depth_left(level as nat) + 9, stmt, 0int, 0int,
    {
        match stmt {
            Stmt::For(name, expr, body) => {
                let ghost all = values_of(items@);
                let n = items.len();
                let mut i: usize = 0;
                // The items are taken from the back of the reversed list.
                let mut pending = items;
                let mut rest: Vec<Dynamic> = Vec::new();
                while pending.len() > 0
                    invariant
                        rest@.len() + pending@.len() == n,
                        n == all.len(),
                        forall|k: int| 0 <= k < pending@.len() ==> (#[trigger] pending@[k])@ == all[k],
                        forall|k: int|
                            0 <= k < rest@.len() ==> (#[trigger] rest@[k])@ == all[n - 1 - k],
                    decreases pending@.len(),
                {
                    let v = pending.pop().unwrap();
                    rest.push(v);
                }
                while i < n
                    invariant
                        i <= n,
                        n == all.len(),
                        all == values_of(items@),
                        rest@.len() == n - i,
                        forall|k: int|
                            0 <= k < rest@.len() ==> (#[trigger] rest@[k])@ == all[n - 1 - k],
                        *stmt == Stmt::For(*name, *expr, *body),
                        self.for_outcome(
                            old(scope)@,
                            old(state).always_search,
                            fn_lib@,
                            stmt@,
                            all,
                            0,
                            slot as int,
                            level as nat,
                        ) == self.for_outcome(
                            scope@,
                            state.always_search,
                            fn_lib@,
                            stmt@,
                            all,
                            i as int,
                            slot as int,
                            level as nat,
                        ),
                    decreases n - i,
                {
                    let a = rest.pop().unwrap();
                    if slot < scope.len() {
                        scope.set_at(slot, a);
                    }
                    match self.eval_stmt(scope, state, fn_lib, body, level) {
                        Ok(_) => {},
                        Err(EvalAltResult::ErrorLoopBreak(false, _)) => {},
                        Err(EvalAltResult::ErrorLoopBreak(true, _)) => {
                            if scope.len() > 0 {
                                scope.rewind(scope.len() - 1);
                            }
                            return Ok(Dynamic::Unit);
                        },
                        Err(e) => {
                            return Err(e);
                        },
                    }
                    i += 1;
                }
                if scope.len() > 0 {
                    scope.rewind(scope.len() - 1);
                }
                Ok(Dynamic::Unit)
            },
            _ => Ok(Dynamic::Unit),
        }
    }

    /// Evaluate a statement.
    pub fn eval_stmt(
        &self,
        scope: &mut Scope,
        state: &mut State,
        fn_lib: &FunctionsLib,
        stmt: &Stmt,
        level: usize,
    ) -> (r: Result<Dynamic, EvalAltResult>)
        ensures
            outcome_of(r, final(scope), final(state)) == self.stmt_outcome(
                old(scope)@,
                old(state).always_search,
                fn_lib@,
                stmt@,
                level as nat,
            ),
        decreases 10 * self.depth_left(level as nat) + 9, stmt, 1int, 0int,
    {
        match stmt {
            // No-op
            Stmt::Noop(_) => Ok(Dynamic::Unit),
            // Expression as statement
            Stmt::Expr(expr) => {
                match self.eval_expr(scope, state, fn_lib, expr, level) {
                    Err(e) => Err(e),
                    Ok(result) => match &**expr {
                        // If it is an assignment, erase the result at the root
                        Expr::Assignment(_, _, _) => Ok(Dynamic::Unit),
                        _ => Ok(result),
                    },
                }
            },
            // Block scope
            Stmt::Block(block, _) => {
                let prev_len = scope.len();

                let result = self.eval_stmts(scope, state, fn_lib, block, level);

                scope.rewind(prev_len);

                // The impact of an eval statement goes away at the end of a block
                // because any new variables introduced will go out of scope
                state.always_search = false;

                result
            },
            // If-else statement
            Stmt::IfThenElse(guard, if_body, else_body) => {
                match self.eval_expr(scope, state, fn_lib, guard, level) {
                    Err(e) => Err(e),
                    Ok(Dynamic::Bool(true)) => self.eval_stmt(scope, state, fn_lib, if_body, level),
                    Ok(Dynamic::Bool(false)) => match else_body {
                        Some(stmt) => self.eval_stmt(scope, state, fn_lib, stmt, level),
                        None => Ok(Dynamic::Unit),
                    },
                    Ok(_) => Err(EvalAltResult::ErrorLogicGuard(guard.position())),
                }
            },
            // While loop
            Stmt::While(_, _) => self.eval_while(scope, state, fn_lib, stmt, level),
            // Loop statement
            Stmt::Loop(_) => self.eval_loop(scope, state, fn_lib, stmt, level),
            // For loop
            Stmt::For(name, expr, _) => {
                let arr = match self.eval_expr(scope, state, fn_lib, expr, level) {
                    Ok(v) => v,
                    Err(e) => {
                        return Err(e);
                    },
                };
                let tid = arr.type_id();
                match self.lookup_iterator(tid) {
                    Some(id) => {
                        let items = self.host.iterate(id, arr);
                        // Add the loop variable
                        let slot = scope.len();
                        scope.push(name.as_str(), Dynamic::Unit);
                        self.eval_for(scope, state, fn_lib, stmt, items, slot, level)
                    },
                    None => Err(EvalAltResult::ErrorFor(expr.position())),
                }
            },
            // Continue statement
            Stmt::Continue(pos) => Err(EvalAltResult::ErrorLoopBreak(false, *pos)),
            // Break statement
            Stmt::Break(pos) => Err(EvalAltResult::ErrorLoopBreak(true, *pos)),
            // Empty return
            Stmt::ReturnWithVal(None, ReturnType::Return, pos) => Err(
                EvalAltResult::Return(Dynamic::Unit, *pos),
            ),
            // Return value
            Stmt::ReturnWithVal(Some(a), ReturnType::Return, pos) => {
                match self.eval_expr(scope, state, fn_lib, a, level) {
                    Ok(v) => Err(EvalAltResult::Return(v, *pos)),
                    Err(e) => Err(e),
                }
            },
            // Empty throw
            Stmt::ReturnWithVal(None, ReturnType::Exception, pos) => Err(
                EvalAltResult::ErrorRuntime(String::new(), *pos),
            ),
            // Throw value
            Stmt::ReturnWithVal(Some(a), ReturnType::Exception, pos) => {
                match self.eval_expr(scope, state, fn_lib, a, level) {
                    Ok(val) => {
                        let text = match val.take_string() {
                            Ok(s) => s,
                            Err(_) => String::new(),
                        };
                        Err(EvalAltResult::ErrorRuntime(text, *pos))
                    },
                    Err(e) => Err(e),
                }
            },
            // Let statement
            Stmt::Let(name, Some(expr), _) => {
                match self.eval_expr(scope, state, fn_lib, expr, level) {
                    Ok(val) => {
                        scope.push_dynamic_value(name.as_str(), EntryType::Normal, val);
                        Ok(Dynamic::Unit)
                    },
                    Err(e) => Err(e),
                }
            },
            Stmt::Let(name, None, _) => {
                scope.push(name.as_str(), Dynamic::Unit);
                Ok(Dynamic::Unit)
            },
            // Const statement
            Stmt::Const(name, expr, _) => {
                match self.eval_expr(scope, state, fn_lib, expr, level) {
                    Ok(val) => {
                        scope.push_dynamic_value(name.as_str(), EntryType::Constant, val);
                        Ok(Dynamic::Unit)
                    },
                    Err(e) => Err(e),
                }
            },
        }
    }

    /// Evaluate a whole script in the given scope: its statements in order,
    /// at the outermost level. A `return` at the outermost level ends the
    /// script with its value.
    pub fn eval_ast_with_scope_raw(&self, scope: &mut Scope, ast: &AST) -> (r: Result<
        Dynamic,
        EvalAltResult,
    >)
        ensures
            result_view(r) == self.ast_outcome(old(scope)@, ast).result,
            final(scope)@ == self.ast_outcome(old(scope)@, ast).scope,
    {
        let mut state = State::new();
        match self.eval_stmts(scope, &mut state, &ast.fn_lib, &ast.statements, 0) {
            Ok(v) => Ok(v),
            Err(EvalAltResult::Return(out, _)) => Ok(out),
            Err(e) => Err(e),
        }
    }
}

} // verus!
