//! What an evaluation means: the outcome of every construct of the language,
//! as a mathematical function of the engine, the script and the scope.

use vstd::prelude::*;
use crate::any::{Value, type_ids_of, find_key};
use crate::engine::{
    Engine, Host, prop_of_getter, prop_of_setter, KEYWORD_DEBUG, KEYWORD_EVAL, KEYWORD_PRINT,
    KEYWORD_TYPE_OF, FUNC_GETTER, FUNC_SETTER,
};
use crate::model::{ExprValue, FnDefValue, StmtValue, stmts_of};
use crate::parser::{AST, ReturnType};
use crate::result::{ErrorValue, ParseErrorType};
use crate::scope::{EntryType, EntryValue, find_entry};
use crate::target::TargetValue;
use crate::token::Position;
use crate::utils::{fn_def_hash, fn_hash};

verus! {

/// How the evaluation of an expression or a statement ends: with a value or
/// an error, and with the scope and the search flag as it leaves them.
pub struct Outcome {
    pub result: Result<Value, ErrorValue>,
    pub scope: Seq<EntryValue>,
    pub always_search: bool,
}

/// How the evaluation of a list of expressions ends.
pub struct ListOutcome {
    pub result: Result<Seq<Value>, ErrorValue>,
    pub scope: Seq<EntryValue>,
    pub always_search: bool,
}

/// How the evaluation of the entries of an object map literal ends.
pub struct EntriesOutcome {
    pub result: Result<Seq<(Seq<char>, Value)>, ErrorValue>,
    pub scope: Seq<EntryValue>,
    pub always_search: bool,
}

/// How a function call ends: with a value or an error, with the arguments as
/// the function leaves them, and with the scope that was handed to it.
pub struct CallOutcome {
    pub result: Result<Value, ErrorValue>,
    pub args: Seq<Value>,
    pub scope: Seq<EntryValue>,
}

/// How one step of a dot/index chain ends: with a value and the flag that says
/// whether the target may have been changed, or with an error; with the target
/// as the step leaves it, and with the index values not yet used.
pub struct ChainOutcome {
    pub result: Result<(Value, bool), ErrorValue>,
    pub target: Value,
    pub idx_values: Seq<Value>,
}

/// The scope cut back to its first `n` entries; a scope that has no more is left as it is.
pub open spec fn rewound(scope: Seq<EntryValue>, n: nat) -> Seq<EntryValue> {
    if n <= scope.len() {
        scope.subrange(0, n as int)
    } else {
        scope
    }
}

/// Where a variable is found: at the distance from the top that the parser
/// recorded, if that lies within the scope, and else by its name.
pub open spec fn search(scope: Seq<EntryValue>, name: Seq<char>, index: Option<usize>, pos: Position) -> Result<
    int,
    ErrorValue,
> {
    match index {
        Some(i) if 1 <= i <= scope.len() => Ok(scope.len() - i),
        _ => match find_entry(scope, name) {
            Some(j) => Ok(j),
            None => Err(ErrorValue::ErrorVariableNotFound(name, pos)),
        },
    }
}

/// What a function's body hands to its caller: a `return` becomes the value,
/// any other error moves to the position of the call.
pub open spec fn returned(r: Result<Value, ErrorValue>, pos: Position) -> Result<Value, ErrorValue> {
    match r {
        Ok(v) => Ok(v),
        Err(ErrorValue::Return(v, _)) => Ok(v),
        Err(e) => Err(e.at(pos)),
    }
}

/// What a script hands to the host: a `return` becomes the value.
pub open spec fn finished(r: Result<Value, ErrorValue>) -> Result<Value, ErrorValue> {
    match r {
        Ok(v) => Ok(v),
        Err(ErrorValue::Return(v, _)) => Ok(v),
        Err(e) => Err(e),
    }
}

/// The scope after the parameters from `from` on were bound to the arguments,
/// each as a normal entry, in declaration order.
pub open spec fn bound(scope: Seq<EntryValue>, params: Seq<Seq<char>>, args: Seq<Value>, from: int) -> Seq<
    EntryValue,
>
    decreases params.len() - from,
{
    if from < 0 || from >= params.len() || from >= args.len() {
        scope
    } else {
        bound(
            scope.push(EntryValue { name: params[from], typ: EntryType::Normal, value: args[from] }),
            params,
            args,
            from + 1,
        )
    }
}

/// The last of the index values, or unit where there is none.
pub open spec fn last_index(idx_values: Seq<Value>) -> Value {
    if idx_values.len() > 0 {
        idx_values.last()
    } else {
        Value::Unit
    }
}

/// The index values without the last.
pub open spec fn rest_indexes(idx_values: Seq<Value>) -> Seq<Value> {
    if idx_values.len() > 0 {
        idx_values.drop_last()
    } else {
        idx_values
    }
}

/// The text of an error raised by `throw`: the value if it is a string, else nothing.
pub open spec fn thrown_text(v: Value) -> Seq<char> {
    match v {
        Value::Str(s) => s,
        _ => Seq::empty(),
    }
}

impl<H: Host> Engine<H> {
    /// Is a call at this level one too deep?
    pub open spec fn overflows(&self, level: nat) -> bool {
        level > self.max_call_stack_depth || level >= usize::MAX
    }

    /// The number of call levels left at this level.
    pub open spec fn depth_left(&self, level: nat) -> nat {
        if self.overflows(level) {
            0
        } else {
            (self.max_call_stack_depth - level + 1) as nat
        }
    }

    /// The shown names of the types of the first `n` arguments, with a comma and a space between them.
    pub open spec fn joined_types(&self, args: Seq<Value>, n: int) -> Seq<char>
        decreases n,
    {
        if n <= 0 || n > args.len() {
            Seq::empty()
        } else if n == 1 {
            self.shown_type(args[0].type_label())
        } else {
            self.joined_types(args, n - 1) + ", "@ + self.shown_type(args[n - 1].type_label())
        }
    }

    /// The signature under which a missing function is reported: its name and,
    /// in brackets, the types of the arguments.
    pub open spec fn signature(&self, fn_name: Seq<char>, args: Seq<Value>) -> Seq<char> {
        fn_name + " ("@ + self.joined_types(args, args.len() as int) + ")"@
    }

    /// What indexing a base value gives: a handle on what was found and the base
    /// value after it, or an error.
    ///
    /// An array takes an integer within its bounds. An object map takes a
    /// string: a key that is there gives its place; one that is not gives a new
    /// place that holds unit if `create` is set, and else a temporary unit. A
    /// string takes an integer within its bounds and gives the character there.
    /// Nothing else can be indexed.
    pub open spec fn indexed(&self, base: Value, idx: Value, idx_pos: Position, op_pos: Position, create: bool) -> (
        Result<TargetValue, ErrorValue>,
        Value,
    ) {
        match base {
            Value::Array(items) => match idx {
                Value::Int(i) => if 0 <= i < items.len() {
                    (Ok(TargetValue::Place(i as int)), base)
                } else {
                    (Err(ErrorValue::ErrorArrayBounds(items.len() as usize, i, idx_pos)), base)
                },
                _ => (Err(ErrorValue::ErrorNumericIndexExpr(idx_pos)), base),
            },
            Value::ObjMap(entries) => match idx {
                Value::Str(key) => match find_key(entries, key) {
                    Some(j) => (Ok(TargetValue::Place(j)), base),
                    None => if create {
                        (
                            Ok(TargetValue::Place(entries.len() as int)),
                            Value::ObjMap(entries.push((key, Value::Unit))),
                        )
                    } else {
                        (Ok(TargetValue::Temp(Value::Unit)), base)
                    },
                },
                _ => (Err(ErrorValue::ErrorStringIndexExpr(idx_pos)), base),
            },
            Value::Str(s) => match idx {
                Value::Int(i) => if 0 <= i < s.len() {
                    (Ok(TargetValue::StringChar(i as int, s[i as int])), base)
                } else {
                    (Err(ErrorValue::ErrorStringBounds(s.len() as usize, i, idx_pos)), base)
                },
                _ => (Err(ErrorValue::ErrorNumericIndexExpr(idx_pos)), base),
            },
            _ => (Err(ErrorValue::ErrorIndexingType(self.shown_type(base.type_label()), op_pos)), base),
        }
    }

    /// The outcome of a call by name: the dispatch.
    ///
    /// In this order: a call one level too deep fails; a script function of
    /// this name and number of arguments is run; a native function of this name
    /// and these argument types is run, that of the engine's own table before
    /// those of the packages, newest first, and what `print` and `debug` return
    /// must be a string and becomes unit; a getter or setter that was not found
    /// is an error; the default value, if there is one, is returned; else the
    /// function is not found.
    pub open spec fn call_outcome(
        &self,
        scope: Seq<EntryValue>,
        fn_lib: Map<u64, FnDefValue>,
        fn_name: Seq<char>,
        args: Seq<Value>,
        def_val: Option<Value>,
        pos: Position,
        level: nat,
    ) -> CallOutcome
        decreases 10 * self.depth_left(level) + 4,
    {
        if self.overflows(level) {
            CallOutcome { result: Err(ErrorValue::ErrorStackOverflow(pos)), args, scope }
        } else if fn_lib.contains_key(fn_def_hash(fn_name, args.len())) {
            self.lib_call_outcome(
                scope,
                fn_lib,
                fn_lib[fn_def_hash(fn_name, args.len())],
                args,
                pos,
                level,
            )
        } else {
            match self.find_native(fn_hash(fn_name, type_ids_of(args))) {
                Some(id) => {
                    let (r, left) = self.host.native_outcome(id, args, pos);
                    match r {
                        Err(e) => CallOutcome { result: Err(e), args: left, scope },
                        Ok(v) => if fn_name == KEYWORD_PRINT@ || fn_name == KEYWORD_DEBUG@ {
                            match v {
                                Value::Str(_) => CallOutcome { result: Ok(Value::Unit), args: left, scope },
                                _ => CallOutcome {
                                    result: Err(ErrorValue::ErrorMismatchOutputType(v.type_label(), pos)),
                                    args: left,
                                    scope,
                                },
                            }
                        } else {
                            CallOutcome { result: Ok(v), args: left, scope }
                        },
                    }
                },
                None => match prop_of_getter(fn_name) {
                    Some(prop) => CallOutcome {
                        result: Err(
                            ErrorValue::ErrorDotExpr(
                                "- property '"@ + prop + "' unknown or write-only"@,
                                pos,
                            ),
                        ),
                        args,
                        scope,
                    },
                    None => match prop_of_setter(fn_name) {
                        Some(prop) => CallOutcome {
                            result: Err(
                                ErrorValue::ErrorDotExpr(
                                    "- property '"@ + prop + "' unknown or read-only"@,
                                    pos,
                                ),
                            ),
                            args,
                            scope,
                        },
                        None => match def_val {
                            Some(v) => CallOutcome { result: Ok(v), args, scope },
                            None => CallOutcome {
                                result: Err(
                                    ErrorValue::ErrorFunctionNotFound(self.signature(fn_name, args), pos),
                                ),
                                args,
                                scope,
                            },
                        },
                    },
                },
            }
        }
    }

    /// The outcome of a call of a script-defined function: the parameters are
    /// bound to the arguments on top of the scope, the body is evaluated one
    /// level deeper, and the scope is cut back to what it was. The arguments
    /// stay as they are.
    pub open spec fn lib_call_outcome(
        &self,
        scope: Seq<EntryValue>,
        fn_lib: Map<u64, FnDefValue>,
        fn_def: FnDefValue,
        args: Seq<Value>,
        pos: Position,
        level: nat,
    ) -> CallOutcome
        decreases 10 * self.depth_left(level) + 3,
    {
        if self.overflows(level) {
            CallOutcome { result: Err(ErrorValue::ErrorStackOverflow(pos)), args, scope }
        } else {
            let b = self.stmt_outcome(
                bound(scope, fn_def.params, args, 0),
                false,
                fn_lib,
                fn_def.body,
                level + 1,
            );
            CallOutcome { result: returned(b.result, pos), args, scope: rewound(b.scope, scope.len()) }
        }
    }

    /// The outcome of a function call as a script writes it: `type_of` with
    /// one argument gives the shown name of its type, and `eval` with one
    /// argument is refused here, both unless overridden; every other call is
    /// dispatched by name.
    pub open spec fn fn_call_outcome(
        &self,
        fn_lib: Map<u64, FnDefValue>,
        fn_name: Seq<char>,
        args: Seq<Value>,
        def_val: Option<Value>,
        pos: Position,
        level: nat,
    ) -> CallOutcome
        decreases 10 * self.depth_left(level) + 5,
    {
        if fn_name == KEYWORD_TYPE_OF@ && args.len() == 1 && !self.overridden(fn_lib, KEYWORD_TYPE_OF@) {
            CallOutcome {
                result: Ok(Value::Str(self.shown_type(args[0].type_label()))),
                args,
                scope: Seq::empty(),
            }
        } else if fn_name == KEYWORD_EVAL@ && args.len() == 1 && !self.overridden(fn_lib, KEYWORD_EVAL@) {
            CallOutcome {
                result: Err(
                    ErrorValue::ErrorRuntime(
                        "'eval' should not be called in method style. Try eval(...);"@,
                        pos,
                    ),
                ),
                args,
                scope: Seq::empty(),
            }
        } else {
            self.call_outcome(Seq::empty(), fn_lib, fn_name, args, def_val, pos, level)
        }
    }

    /// The outcome of `eval`: the text is parsed, must define no function,
    /// and its statements are evaluated in the caller's scope, one level deeper.
    pub open spec fn script_outcome(
        &self,
        scope: Seq<EntryValue>,
        fn_lib: Map<u64, FnDefValue>,
        script: Value,
        pos: Position,
        level: nat,
    ) -> Outcome
        decreases 10 * self.depth_left(level) + 6,
    {
        match script {
            Value::Str(text) => if self.overflows(level) {
                Outcome { result: Err(ErrorValue::ErrorStackOverflow(pos)), scope, always_search: false }
            } else {
                match self.host.parsed(text) {
                    Err((t, p)) => Outcome {
                        result: Err(ErrorValue::ErrorParsing(t, p)),
                        scope,
                        always_search: false,
                    },
                    Ok((statements, functions)) => if functions.len() > 0 {
                        Outcome {
                            result: Err(ErrorValue::ErrorParsing(ParseErrorType::WrongFnDefinition, pos)),
                            scope,
                            always_search: false,
                        }
                    } else {
                        let b = self.stmts_outcome(
                            scope,
                            false,
                            fn_lib,
                            statements,
                            0,
                            Value::Unit,
                            level + 1,
                        );
                        Outcome { result: returned(b.result, pos), scope: b.scope, always_search: false }
                    },
                }
            },
            _ => Outcome {
                result: Err(ErrorValue::ErrorMismatchOutputType(script.type_label(), pos)),
                scope,
                always_search: false,
            },
        }
    }

    /// What the `==` of the engine's dispatch says of two values; `false`
    /// where no function answers.
    pub open spec fn eq_outcome(&self, fn_lib: Map<u64, FnDefValue>, a: Value, b: Value, pos: Position, level: nat) -> Result<
        Value,
        ErrorValue,
    >
        decreases 10 * self.depth_left(level) + 6,
    {
        self.call_outcome(
            Seq::empty(),
            fn_lib,
            "=="@,
            seq![a, b],
            Some(Value::Bool(false)),
            pos,
            level,
        ).result
    }

    /// Whether a value is among the items from `i` on, by the `==` of the
    /// engine's dispatch: the first item for which `==` gives `true` decides.
    pub open spec fn in_array_outcome(
        &self,
        fn_lib: Map<u64, FnDefValue>,
        lhs: Value,
        items: Seq<Value>,
        i: int,
        pos: Position,
        level: nat,
    ) -> Result<Value, ErrorValue>
        decreases 10 * self.depth_left(level) + 7, items.len() - i,
    {
        if i < 0 || i >= items.len() {
            Ok(Value::Bool(false))
        } else {
            let c = self.eq_outcome(fn_lib, lhs, items[i], pos, level);
            match c {
                Err(e) => Err(e),
                Ok(Value::Bool(true)) => Ok(Value::Bool(true)),
                Ok(_) => self.in_array_outcome(fn_lib, lhs, items, i + 1, pos, level),
            }
        }
    }

    /// The outcome of `lhs in rhs` for the values of both sides.
    ///
    /// In an array the value is looked for with `==`. In an object map a
    /// string or a character is looked for among the keys. In a string a
    /// string is looked for as a part, a character as a member.
    pub open spec fn in_outcome(
        &self,
        fn_lib: Map<u64, FnDefValue>,
        lhs: Value,
        rhs: Value,
        lhs_pos: Position,
        rhs_pos: Position,
        level: nat,
    ) -> Result<Value, ErrorValue>
        decreases 10 * self.depth_left(level) + 8,
    {
        match rhs {
            Value::Array(items) => self.in_array_outcome(fn_lib, lhs, items, 0, rhs_pos, level),
            Value::ObjMap(entries) => match lhs {
                Value::Str(s) => Ok(Value::Bool(find_key(entries, s).is_some())),
                Value::Char(c) => Ok(Value::Bool(find_key(entries, seq![c]).is_some())),
                _ => Err(ErrorValue::ErrorInExpr(lhs_pos)),
            },
            Value::Str(text) => match lhs {
                Value::Str(s) => Ok(Value::Bool(crate::text::occurs_in(s, text))),
                Value::Char(c) => Ok(Value::Bool(crate::text::occurs_in(seq![c], text))),
                _ => Err(ErrorValue::ErrorInExpr(lhs_pos)),
            },
            _ => Err(ErrorValue::ErrorInExpr(rhs_pos)),
        }
    }

    /// The outcome of the expressions from `from` on, evaluated in order:
    /// `acc` followed by their values.
    pub open spec fn exprs_outcome(
        &self,
        scope: Seq<EntryValue>,
        always_search: bool,
        fn_lib: Map<u64, FnDefValue>,
        exprs: Seq<ExprValue>,
        from: int,
        acc: Seq<Value>,
        level: nat,
    ) -> ListOutcome
        decreases 10 * self.depth_left(level) + 9, exprs, 0int, exprs.len() - from,
    {
        if from < 0 || from >= exprs.len() {
            ListOutcome { result: Ok(acc), scope, always_search }
        } else {
            let h = self.expr_outcome(scope, always_search, fn_lib, exprs[from], level);
            match h.result {
                Err(e) => ListOutcome { result: Err(e), scope: h.scope, always_search: h.always_search },
                Ok(v) => self.exprs_outcome(
                    h.scope,
                    h.always_search,
                    fn_lib,
                    exprs,
                    from + 1,
                    acc.push(v),
                    level,
                ),
            }
        }
    }

    /// The outcome of the entries of an object map literal from `from` on,
    /// evaluated in order: `acc` followed by each key with its value.
    pub open spec fn items_outcome(
        &self,
        scope: Seq<EntryValue>,
        always_search: bool,
        fn_lib: Map<u64, FnDefValue>,
        items: Seq<(Seq<char>, ExprValue, Position)>,
        from: int,
        acc: Seq<(Seq<char>, Value)>,
        level: nat,
    ) -> EntriesOutcome
        decreases 10 * self.depth_left(level) + 9, items, 0int, items.len() - from,
    {
        if from < 0 || from >= items.len() {
            EntriesOutcome { result: Ok(acc), scope, always_search }
        } else {
            let h = self.expr_outcome(scope, always_search, fn_lib, items[from].1, level);
            match h.result {
                Err(e) => EntriesOutcome { result: Err(e), scope: h.scope, always_search: h.always_search },
                Ok(v) => self.items_outcome(
                    h.scope,
                    h.always_search,
                    fn_lib,
                    items,
                    from + 1,
                    acc.push((items[from].0, v)),
                    level,
                ),
            }
        }
    }

    /// The outcome of the statements from `from` on, evaluated in order: the
    /// value of the last one, or `last` where there is none. The first error ends it.
    pub open spec fn stmts_outcome(
        &self,
        scope: Seq<EntryValue>,
        always_search: bool,
        fn_lib: Map<u64, FnDefValue>,
        stmts: Seq<StmtValue>,
        from: int,
        last: Value,
        level: nat,
    ) -> Outcome
        decreases 10 * self.depth_left(level) + 9, stmts, 0int, stmts.len() - from,
    {
        if from < 0 || from >= stmts.len() {
            Outcome { result: Ok(last), scope, always_search }
        } else {
            let h = self.stmt_outcome(scope, always_search, fn_lib, stmts[from], level);
            match h.result {
                Err(_) => h,
                Ok(v) => self.stmts_outcome(h.scope, h.always_search, fn_lib, stmts, from + 1, v, level),
            }
        }
    }

    /// The outcome of an expression.
    pub open spec fn expr_outcome(
        &self,
        scope: Seq<EntryValue>,
        always_search: bool,
        fn_lib: Map<u64, FnDefValue>,
        expr: ExprValue,
        level: nat,
    ) -> Outcome
        decreases 10 * self.depth_left(level) + 9, expr, 1int, 0int,
    {
        match expr {
            ExprValue::IntegerConstant(i, _) => Outcome { result: Ok(Value::Int(i)), scope, always_search },
            ExprValue::CharConstant(c, _) => Outcome { result: Ok(Value::Char(c)), scope, always_search },
            ExprValue::StringConstant(s, _) => Outcome { result: Ok(Value::Str(s)), scope, always_search },
            ExprValue::True(_) => Outcome { result: Ok(Value::Bool(true)), scope, always_search },
            ExprValue::False(_) => Outcome { result: Ok(Value::Bool(false)), scope, always_search },
            ExprValue::Unit(_) => Outcome { result: Ok(Value::Unit), scope, always_search },
            ExprValue::Variable(name, index, pos) => match search(
                scope,
                name,
                if always_search {
                    None
                } else {
                    index
                },
                pos,
            ) {
                Ok(j) => Outcome { result: Ok(scope[j].value), scope, always_search },
                Err(e) => Outcome { result: Err(e), scope, always_search },
            },
            ExprValue::Property(_, pos) => Outcome {
                result: Err(ErrorValue::ErrorDotExpr(Seq::empty(), pos)),
                scope,
                always_search,
            },
            ExprValue::Stmt(stmt, _) => self.stmt_outcome(scope, always_search, fn_lib, *stmt, level),
            ExprValue::Assignment(_, _, _) => self.assignment_outcome(scope, always_search, fn_lib, expr, level),
            ExprValue::Index(_, _, op_pos) => self.chain_outcome(
                scope,
                always_search,
                fn_lib,
                expr,
                op_pos,
                level,
                None,
            ),
            ExprValue::Dot(_, _, op_pos) => self.chain_outcome(
                scope,
                always_search,
                fn_lib,
                expr,
                op_pos,
                level,
                None,
            ),
            ExprValue::Array(items, _) => {
                let a = self.exprs_outcome(scope, always_search, fn_lib, items, 0, Seq::empty(), level);
                Outcome {
                    result: match a.result {
                        Ok(vs) => Ok(Value::Array(vs)),
                        Err(e) => Err(e),
                    },
                    scope: a.scope,
                    always_search: a.always_search,
                }
            },
            ExprValue::ObjMap(items, _) => {
                let a = self.items_outcome(scope, always_search, fn_lib, items, 0, Seq::empty(), level);
                Outcome {
                    result: match a.result {
                        Ok(es) => Ok(Value::ObjMap(es)),
                        Err(e) => Err(e),
                    },
                    scope: a.scope,
                    always_search: a.always_search,
                }
            },
            ExprValue::FnCall(_, _, _, _) => self.call_expr_outcome(scope, always_search, fn_lib, expr, level),
            ExprValue::In(_, _, _) => self.in_expr_outcome(scope, always_search, fn_lib, expr, level),
            ExprValue::And(_, _, _) => self.and_outcome(scope, always_search, fn_lib, expr, level),
            ExprValue::Or(_, _, _) => self.or_outcome(scope, always_search, fn_lib, expr, level),
        }
    }

    /// The outcome of an assignment: the right-hand side is evaluated, then
    /// its value is assigned to the left-hand side.
    pub open spec fn assignment_outcome(
        &self,
        scope: Seq<EntryValue>,
        always_search: bool,
        fn_lib: Map<u64, FnDefValue>,
        expr: ExprValue,
        level: nat,
    ) -> Outcome
        decreases 10 * self.depth_left(level) + 9, expr, 0int, 1int,
    {
        match expr {
            ExprValue::Assignment(_, rhs, _) => {
                let r = self.expr_outcome(scope, always_search, fn_lib, *rhs, level);
                match r.result {
                    Err(_) => r,
                    Ok(v) => self.assigned(r.scope, r.always_search, fn_lib, expr, v, level),
                }
            },
            _ => Outcome { result: Ok(Value::Unit), scope, always_search },
        }
    }

    /// The outcome of assigning a value to the left-hand side of an
    /// assignment. A variable takes the value unless it is a constant. An
    /// index or a dot expression is written as a chain. A constant
    /// expression refuses, and so does everything else.
    pub open spec fn assigned(
        &self,
        scope: Seq<EntryValue>,
        always_search: bool,
        fn_lib: Map<u64, FnDefValue>,
        expr: ExprValue,
        v: Value,
        level: nat,
    ) -> Outcome
        decreases 10 * self.depth_left(level) + 9, expr, 0int, 0int,
    {
        match expr {
            ExprValue::Assignment(lhs, _, op_pos) => match *lhs {
                ExprValue::Variable(name, index, pos) => match search(
                    scope,
                    name,
                    if always_search {
                        None
                    } else {
                        index
                    },
                    pos,
                ) {
                    Err(e) => Outcome { result: Err(e), scope, always_search },
                    Ok(j) => match scope[j].typ {
                        EntryType::Constant => Outcome {
                            result: Err(ErrorValue::ErrorAssignmentToConstant(name, op_pos)),
                            scope,
                            always_search,
                        },
                        EntryType::Normal => Outcome {
                            result: Ok(Value::Unit),
                            scope: scope.update(j, EntryValue { value: v, ..scope[j] }),
                            always_search,
                        },
                    },
                },
                ExprValue::Index(_, _, idx_pos) => self.chain_outcome(
                    scope,
                    always_search,
                    fn_lib,
                    *lhs,
                    idx_pos,
                    level,
                    Some(v),
                ),
                ExprValue::Dot(_, _, _) => self.chain_outcome(
                    scope,
                    always_search,
                    fn_lib,
                    *lhs,
                    op_pos,
                    level,
                    Some(v),
                ),
                other => if other.is_constant() {
                    Outcome {
                        result: Err(
                            ErrorValue::ErrorAssignmentToConstant(
                                other.constant_label(),
                                other.position(),
                            ),
                        ),
                        scope,
                        always_search,
                    }
                } else {
                    Outcome {
                        result: Err(ErrorValue::ErrorAssignmentToUnknownLHS(other.position())),
                        scope,
                        always_search,
                    }
                },
            },
            _ => Outcome { result: Ok(Value::Unit), scope, always_search },
        }
    }

    /// The outcome of a function call expression: the arguments are
    /// evaluated in order; `eval` with one argument, unless overridden, runs
    /// the argument as a script in the current scope, and the search flag is
    /// set if that succeeds and changes the number of entries; every other
    /// call goes through the dispatch.
    pub open spec fn call_expr_outcome(
        &self,
        scope: Seq<EntryValue>,
        always_search: bool,
        fn_lib: Map<u64, FnDefValue>,
        expr: ExprValue,
        level: nat,
    ) -> Outcome
        decreases 10 * self.depth_left(level) + 9, expr, 0int, 0int,
    {
        match expr {
            ExprValue::FnCall(name, arg_exprs, def_val, pos) => {
                let a = self.exprs_outcome(scope, always_search, fn_lib, arg_exprs, 0, Seq::empty(), level);
                match a.result {
                    Err(e) => Outcome { result: Err(e), scope: a.scope, always_search: a.always_search },
                    Ok(args) => if name == KEYWORD_EVAL@ && args.len() == 1 && arg_exprs.len() == 1
                        && !self.overridden(fn_lib, KEYWORD_EVAL@) {
                        let s = self.script_outcome(
                            a.scope,
                            fn_lib,
                            args[0],
                            arg_exprs[0].position(),
                            level,
                        );
                        Outcome {
                            result: s.result,
                            scope: s.scope,
                            always_search: a.always_search || (s.result.is_ok() && s.scope.len()
                                != a.scope.len()),
                        }
                    } else {
                        let c = self.fn_call_outcome(fn_lib, name, args, def_val, pos, level);
                        Outcome { result: c.result, scope: a.scope, always_search: a.always_search }
                    },
                }
            },
            _ => Outcome { result: Ok(Value::Unit), scope, always_search },
        }
    }

    /// The outcome of `lhs in rhs`: both sides are evaluated, the left one
    /// first.
    pub open spec fn in_expr_outcome(
        &self,
        scope: Seq<EntryValue>,
        always_search: bool,
        fn_lib: Map<u64, FnDefValue>,
        expr: ExprValue,
        level: nat,
    ) -> Outcome
        decreases 10 * self.depth_left(level) + 9, expr, 0int, 0int,
    {
        match expr {
            ExprValue::In(lhs, rhs, _) => {
                let l = self.expr_outcome(scope, always_search, fn_lib, *lhs, level);
                match l.result {
                    Err(_) => l,
                    Ok(lv) => {
                        let r = self.expr_outcome(l.scope, l.always_search, fn_lib, *rhs, level);
                        match r.result {
                            Err(_) => r,
                            Ok(rv) => Outcome {
                                result: self.in_outcome(
                                    fn_lib,
                                    lv,
                                    rv,
                                    lhs.position(),
                                    rhs.position(),
                                    level,
                                ),
                                ..r
                            },
                        }
                    },
                }
            },
            _ => Outcome { result: Ok(Value::Unit), scope, always_search },
        }
    }

    /// The outcome of `lhs && rhs`: the right side is evaluated only if the
    /// left side is `true`, and both must be booleans.
    pub open spec fn and_outcome(
        &self,
        scope: Seq<EntryValue>,
        always_search: bool,
        fn_lib: Map<u64, FnDefValue>,
        expr: ExprValue,
        level: nat,
    ) -> Outcome
        decreases 10 * self.depth_left(level) + 9, expr, 0int, 0int,
    {
        match expr {
            ExprValue::And(lhs, rhs, _) => {
                let l = self.expr_outcome(scope, always_search, fn_lib, *lhs, level);
                match l.result {
                    Err(_) => l,
                    Ok(Value::Bool(false)) => l,
                    Ok(Value::Bool(true)) => {
                        let r = self.expr_outcome(l.scope, l.always_search, fn_lib, *rhs, level);
                        match r.result {
                            Err(_) => r,
                            Ok(Value::Bool(_)) => r,
                            Ok(_) => Outcome {
                                result: Err(
                                    ErrorValue::ErrorBooleanArgMismatch("AND"@, rhs.position()),
                                ),
                                ..r
                            },
                        }
                    },
                    Ok(_) => Outcome {
                        result: Err(ErrorValue::ErrorBooleanArgMismatch("AND"@, lhs.position())),
                        ..l
                    },
                }
            },
            _ => Outcome { result: Ok(Value::Unit), scope, always_search },
        }
    }

    /// The outcome of `lhs || rhs`: the right side is evaluated only if the
    /// left side is `false`, and both must be booleans.
    pub open spec fn or_outcome(
        &self,
        scope: Seq<EntryValue>,
        always_search: bool,
        fn_lib: Map<u64, FnDefValue>,
        expr: ExprValue,
        level: nat,
    ) -> Outcome
        decreases 10 * self.depth_left(level) + 9, expr, 0int, 0int,
    {
        match expr {
            ExprValue::Or(lhs, rhs, _) => {
                let l = self.expr_outcome(scope, always_search, fn_lib, *lhs, level);
                match l.result {
                    Err(_) => l,
                    Ok(Value::Bool(true)) => l,
                    Ok(Value::Bool(false)) => {
                        let r = self.expr_outcome(l.scope, l.always_search, fn_lib, *rhs, level);
                        match r.result {
                            Err(_) => r,
                            Ok(Value::Bool(_)) => r,
                            Ok(_) => Outcome {
                                result: Err(
                                    ErrorValue::ErrorBooleanArgMismatch("OR"@, rhs.position()),
                                ),
                                ..r
                            },
                        }
                    },
                    Ok(_) => Outcome {
                        result: Err(ErrorValue::ErrorBooleanArgMismatch("OR"@, lhs.position())),
                        ..l
                    },
                }
            },
            _ => Outcome { result: Ok(Value::Unit), scope, always_search },
        }
    }

    /// The outcome of a `while` loop with the given number of rounds left.
    pub open spec fn while_outcome(
        &self,
        scope: Seq<EntryValue>,
        always_search: bool,
        fn_lib: Map<u64, FnDefValue>,
        stmt: StmtValue,
        rounds: nat,
        level: nat,
    ) -> Outcome
        decreases 10 * self.depth_left(level) + 9, stmt, 0int, rounds,
    {
        match stmt {
            StmtValue::While(guard, body) => {
                let g = self.expr_outcome(scope, always_search, fn_lib, *guard, level);
                match g.result {
                    Err(_) => g,
                    Ok(Value::Bool(true)) => if rounds == 0 {
                        Outcome {
                            result: Err(ErrorValue::ErrorTooManyOperations(guard.position())),
                            ..g
                        }
                    } else {
                        let b = self.stmt_outcome(g.scope, g.always_search, fn_lib, *body, level);
                        match b.result {
                            Err(ErrorValue::ErrorLoopBreak(true, _)) => Outcome {
                                result: Ok(Value::Unit),
                                ..b
                            },
                            Err(ErrorValue::ErrorLoopBreak(false, _)) => self.while_outcome(
                                b.scope,
                                b.always_search,
                                fn_lib,
                                stmt,
                                (rounds - 1) as nat,
                                level,
                            ),
                            Err(_) => b,
                            Ok(_) => self.while_outcome(
                                b.scope,
                                b.always_search,
                                fn_lib,
                                stmt,
                                (rounds - 1) as nat,
                                level,
                            ),
                        }
                    },
                    Ok(Value::Bool(false)) => Outcome { result: Ok(Value::Unit), ..g },
                    Ok(_) => Outcome {
                        result: Err(ErrorValue::ErrorLogicGuard(guard.position())),
                        ..g
                    },
                }
            },
            _ => Outcome { result: Ok(Value::Unit), scope, always_search },
        }
    }

    /// The outcome of a `loop` with the given number of rounds left.
    pub open spec fn loop_outcome(
        &self,
        scope: Seq<EntryValue>,
        always_search: bool,
        fn_lib: Map<u64, FnDefValue>,
        stmt: StmtValue,
        rounds: nat,
        level: nat,
    ) -> Outcome
        decreases 10 * self.depth_left(level) + 9, stmt, 0int, rounds,
    {
        match stmt {
            StmtValue::Loop(body) => if rounds == 0 {
                Outcome {
                    result: Err(ErrorValue::ErrorTooManyOperations(body.position())),
                    scope,
                    always_search,
                }
            } else {
                let b = self.stmt_outcome(scope, always_search, fn_lib, *body, level);
                match b.result {
                    Err(ErrorValue::ErrorLoopBreak(true, _)) => Outcome { result: Ok(Value::Unit), ..b },
                    Err(ErrorValue::ErrorLoopBreak(false, _)) => self.loop_outcome(
                        b.scope,
                        b.always_search,
                        fn_lib,
                        stmt,
                        (rounds - 1) as nat,
                        level,
                    ),
                    Err(_) => b,
                    Ok(_) => self.loop_outcome(
                        b.scope,
                        b.always_search,
                        fn_lib,
                        stmt,
                        (rounds - 1) as nat,
                        level,
                    ),
                }
            },
            _ => Outcome { result: Ok(Value::Unit), scope, always_search },
        }
    }

    /// The outcome of the rounds of a `for` loop over the items from `i` on,
    /// the loop variable in the entry at `slot`.
    pub open spec fn for_outcome(
        &self,
        scope: Seq<EntryValue>,
        always_search: bool,
        fn_lib: Map<u64, FnDefValue>,
        stmt: StmtValue,
        items: Seq<Value>,
        i: int,
        slot: int,
        level: nat,
    ) -> Outcome
        decreases 10 * self.depth_left(level) + 9, stmt, 0int, items.len() - i,
    {
        match stmt {
            StmtValue::For(_, _, body) => if i < 0 || i >= items.len() {
                Outcome {
                    result: Ok(Value::Unit),
                    scope: if scope.len() > 0 {
                        scope.drop_last()
                    } else {
                        scope
                    },
                    always_search,
                }
            } else {
                let entered = if 0 <= slot < scope.len() {
                    scope.update(slot, EntryValue { value: items[i], ..scope[slot] })
                } else {
                    scope
                };
                let b = self.stmt_outcome(entered, always_search, fn_lib, *body, level);
                match b.result {
                    Err(ErrorValue::ErrorLoopBreak(true, _)) => Outcome {
                        result: Ok(Value::Unit),
                        scope: if b.scope.len() > 0 {
                            b.scope.drop_last()
                        } else {
                            b.scope
                        },
                        always_search: b.always_search,
                    },
                    Err(ErrorValue::ErrorLoopBreak(false, _)) => self.for_outcome(
                        b.scope,
                        b.always_search,
                        fn_lib,
                        stmt,
                        items,
                        i + 1,
                        slot,
                        level,
                    ),
                    Err(_) => b,
                    Ok(_) => self.for_outcome(
                        b.scope,
                        b.always_search,
                        fn_lib,
                        stmt,
                        items,
                        i + 1,
                        slot,
                        level,
                    ),
                }
            },
            _ => Outcome { result: Ok(Value::Unit), scope, always_search },
        }
    }

    /// The outcome of a statement.
    pub open spec fn stmt_outcome(
        &self,
        scope: Seq<EntryValue>,
        always_search: bool,
        fn_lib: Map<u64, FnDefValue>,
        stmt: StmtValue,
        level: nat,
    ) -> Outcome
        decreases 10 * self.depth_left(level) + 9, stmt, 1int, 0int,
    {
        match stmt {
            StmtValue::Noop(_) => Outcome { result: Ok(Value::Unit), scope, always_search },
            StmtValue::Expr(expr) => {
                let r = self.expr_outcome(scope, always_search, fn_lib, *expr, level);
                match r.result {
                    Err(_) => r,
                    Ok(v) => if *expr is Assignment {
                        Outcome { result: Ok(Value::Unit), ..r }
                    } else {
                        r
                    },
                }
            },
            StmtValue::Block(block, _) => {
                let b = self.stmts_outcome(scope, always_search, fn_lib, block, 0, Value::Unit, level);
                Outcome { result: b.result, scope: rewound(b.scope, scope.len()), always_search: false }
            },
            StmtValue::IfThenElse(guard, if_body, else_body) => {
                let g = self.expr_outcome(scope, always_search, fn_lib, *guard, level);
                match g.result {
                    Err(_) => g,
                    Ok(Value::Bool(true)) => self.stmt_outcome(
                        g.scope,
                        g.always_search,
                        fn_lib,
                        *if_body,
                        level,
                    ),
                    Ok(Value::Bool(false)) => match else_body {
                        Some(stmt) => self.stmt_outcome(g.scope, g.always_search, fn_lib, *stmt, level),
                        None => Outcome { result: Ok(Value::Unit), ..g },
                    },
                    Ok(_) => Outcome {
                        result: Err(ErrorValue::ErrorLogicGuard(guard.position())),
                        ..g
                    },
                }
            },
            StmtValue::While(_, _) => self.while_outcome(
                scope,
                always_search,
                fn_lib,
                stmt,
                self.max_loop_rounds as nat,
                level,
            ),
            StmtValue::Loop(_) => self.loop_outcome(
                scope,
                always_search,
                fn_lib,
                stmt,
                self.max_loop_rounds as nat,
                level,
            ),
            StmtValue::For(name, expr, _) => {
                let e = self.expr_outcome(scope, always_search, fn_lib, *expr, level);
                match e.result {
                    Err(_) => e,
                    Ok(v) => match self.find_iterator(v.type_id()) {
                        None => Outcome { result: Err(ErrorValue::ErrorFor(expr.position())), ..e },
                        Some(id) => self.for_outcome(
                            e.scope.push(
                                EntryValue { name: name, typ: EntryType::Normal, value: Value::Unit },
                            ),
                            e.always_search,
                            fn_lib,
                            stmt,
                            self.host.iter_items(id, v),
                            0,
                            e.scope.len() as int,
                            level,
                        ),
                    },
                }
            },
            StmtValue::Continue(pos) => Outcome {
                result: Err(ErrorValue::ErrorLoopBreak(false, pos)),
                scope,
                always_search,
            },
            StmtValue::Break(pos) => Outcome {
                result: Err(ErrorValue::ErrorLoopBreak(true, pos)),
                scope,
                always_search,
            },
            StmtValue::ReturnWithVal(None, ReturnType::Return, pos) => Outcome {
                result: Err(ErrorValue::Return(Value::Unit, pos)),
                scope,
                always_search,
            },
            StmtValue::ReturnWithVal(Some(a), ReturnType::Return, pos) => {
                let r = self.expr_outcome(scope, always_search, fn_lib, *a, level);
                match r.result {
                    Err(_) => r,
                    Ok(v) => Outcome { result: Err(ErrorValue::Return(v, pos)), ..r },
                }
            },
            StmtValue::ReturnWithVal(None, ReturnType::Exception, pos) => Outcome {
                result: Err(ErrorValue::ErrorRuntime(Seq::empty(), pos)),
                scope,
                always_search,
            },
            StmtValue::ReturnWithVal(Some(a), ReturnType::Exception, pos) => {
                let r = self.expr_outcome(scope, always_search, fn_lib, *a, level);
                match r.result {
                    Err(_) => r,
                    Ok(v) => Outcome { result: Err(ErrorValue::ErrorRuntime(thrown_text(v), pos)), ..r },
                }
            },
            StmtValue::Let(name, Some(expr), _) => {
                let r = self.expr_outcome(scope, always_search, fn_lib, *expr, level);
                match r.result {
                    Err(_) => r,
                    Ok(v) => Outcome {
                        result: Ok(Value::Unit),
                        scope: r.scope.push(EntryValue { name: name, typ: EntryType::Normal, value: v }),
                        always_search: r.always_search,
                    },
                }
            },
            StmtValue::Let(name, None, _) => Outcome {
                result: Ok(Value::Unit),
                scope: scope.push(EntryValue { name: name, typ: EntryType::Normal, value: Value::Unit }),
                always_search,
            },
            StmtValue::Const(name, expr, _) => {
                let r = self.expr_outcome(scope, always_search, fn_lib, *expr, level);
                match r.result {
                    Err(_) => r,
                    Ok(v) => Outcome {
                        result: Ok(Value::Unit),
                        scope: r.scope.push(EntryValue { name: name, typ: EntryType::Constant, value: v }),
                        always_search: r.always_search,
                    },
                }
            },
        }
    }

    /// The outcome of evaluating, in source order, what a chain's right-hand
    /// side needs before it is walked: a placeholder for each property, the
    /// argument list of each method call, the value of each index. The values
    /// are added to `idx_values` so that the last of them belongs to the
    /// first step of the walk.
    pub open spec fn indexes_outcome(
        &self,
        scope: Seq<EntryValue>,
        always_search: bool,
        fn_lib: Map<u64, FnDefValue>,
        expr: ExprValue,
        idx_values: Seq<Value>,
        level: nat,
    ) -> ListOutcome
        decreases 10 * self.depth_left(level) + 9, expr, 2int, 0int,
    {
        match expr {
            ExprValue::FnCall(_, arg_exprs, _, _) => {
                let a = self.exprs_outcome(scope, always_search, fn_lib, arg_exprs, 0, Seq::empty(), level);
                ListOutcome {
                    result: match a.result {
                        Ok(vs) => Ok(idx_values.push(Value::Array(vs))),
                        Err(e) => Err(e),
                    },
                    scope: a.scope,
                    always_search: a.always_search,
                }
            },
            ExprValue::Property(_, _) => ListOutcome {
                result: Ok(idx_values.push(Value::Unit)),
                scope,
                always_search,
            },
            ExprValue::Index(lhs, rhs, _) => self.step_indexes_outcome(
                scope,
                always_search,
                fn_lib,
                expr,
                idx_values,
                level,
            ),
            ExprValue::Dot(lhs, rhs, _) => self.step_indexes_outcome(
                scope,
                always_search,
                fn_lib,
                expr,
                idx_values,
                level,
            ),
            _ => {
                let e = self.expr_outcome(scope, always_search, fn_lib, expr, level);
                ListOutcome {
                    result: match e.result {
                        Ok(v) => Ok(idx_values.push(v)),
                        Err(e) => Err(e),
                    },
                    scope: e.scope,
                    always_search: e.always_search,
                }
            },
        }
    }

    /// The outcome of `indexes_outcome` for a right-hand side that is itself a
    /// dot or an index expression: its left part is evaluated first, then what
    /// its right part needs, and the left part's value is added last.
    pub open spec fn step_indexes_outcome(
        &self,
        scope: Seq<EntryValue>,
        always_search: bool,
        fn_lib: Map<u64, FnDefValue>,
        expr: ExprValue,
        idx_values: Seq<Value>,
        level: nat,
    ) -> ListOutcome
        decreases 10 * self.depth_left(level) + 9, expr, 1int, 1int,
    {
        let (lhs, rhs) = match expr {
            ExprValue::Index(lhs, rhs, _) => (Some(*lhs), Some(*rhs)),
            ExprValue::Dot(lhs, rhs, _) => (Some(*lhs), Some(*rhs)),
            _ => (None, None),
        };
        match (lhs, rhs) {
            (Some(lhs), Some(rhs)) => {
                let l = if lhs is Property {
                    Outcome { result: Ok(Value::Unit), scope, always_search }
                } else {
                    self.expr_outcome(scope, always_search, fn_lib, lhs, level)
                };
                match l.result {
                    Err(e) => ListOutcome { result: Err(e), scope: l.scope, always_search: l.always_search },
                    Ok(lv) => {
                        let r = self.indexes_outcome(
                            l.scope,
                            l.always_search,
                            fn_lib,
                            rhs,
                            idx_values,
                            level,
                        );
                        ListOutcome {
                            result: match r.result {
                                Ok(vs) => Ok(vs.push(lv)),
                                Err(e) => Err(e),
                            },
                            scope: r.scope,
                            always_search: r.always_search,
                        }
                    },
                }
            },
            _ => ListOutcome { result: Ok(idx_values), scope, always_search },
        }
    }

    /// The outcome of a dot/index chain, read (`new_val` is nothing) or
    /// written.
    ///
    /// What the right-hand side needs is evaluated first. A variable on the
    /// left is the place that the chain starts from; a constant refuses a
    /// write. Any other left-hand side is evaluated to a temporary and
    /// refuses a write.
    pub open spec fn chain_outcome(
        &self,
        scope: Seq<EntryValue>,
        always_search: bool,
        fn_lib: Map<u64, FnDefValue>,
        chain: ExprValue,
        op_pos: Position,
        level: nat,
        new_val: Option<Value>,
    ) -> Outcome
        decreases 10 * self.depth_left(level) + 9, chain, 0int, 0int,
    {
        let (lhs, rhs) = match chain {
            ExprValue::Index(lhs, rhs, _) => (Some(*lhs), Some(*rhs)),
            ExprValue::Dot(lhs, rhs, _) => (Some(*lhs), Some(*rhs)),
            _ => (None, None),
        };
        match (lhs, rhs) {
            (Some(lhs), Some(rhs)) => {
                let ix = self.indexes_outcome(scope, always_search, fn_lib, rhs, Seq::empty(), level);
                match ix.result {
                    Err(e) => Outcome { result: Err(e), scope: ix.scope, always_search: ix.always_search },
                    Ok(idx_values) => match lhs {
                        ExprValue::Variable(id, index, pos) => match search(
                            ix.scope,
                            id,
                            if ix.always_search {
                                None
                            } else {
                                index
                            },
                            pos,
                        ) {
                            Err(e) => Outcome {
                                result: Err(e),
                                scope: ix.scope,
                                always_search: ix.always_search,
                            },
                            Ok(j) => if ix.scope[j].typ == EntryType::Constant && new_val.is_some() {
                                Outcome {
                                    result: Err(ErrorValue::ErrorAssignmentToConstant(id, pos)),
                                    scope: ix.scope,
                                    always_search: ix.always_search,
                                }
                            } else {
                                let h = self.helper_outcome(
                                    fn_lib,
                                    ix.scope[j].value,
                                    rhs,
                                    idx_values,
                                    chain is Index,
                                    op_pos,
                                    level,
                                    new_val,
                                );
                                Outcome {
                                    result: match h.result {
                                        Ok((v, _)) => Ok(v),
                                        Err(e) => Err(e),
                                    },
                                    scope: ix.scope.update(
                                        j,
                                        EntryValue { value: h.target, ..ix.scope[j] },
                                    ),
                                    always_search: ix.always_search,
                                }
                            },
                        },
                        other => if new_val.is_some() {
                            Outcome {
                                result: Err(ErrorValue::ErrorAssignmentToUnknownLHS(other.position())),
                                scope: ix.scope,
                                always_search: ix.always_search,
                            }
                        } else {
                            let l = self.expr_outcome(ix.scope, ix.always_search, fn_lib, lhs, level);
                            match l.result {
                                Err(_) => l,
                                Ok(v) => {
                                    let h = self.helper_outcome(
                                        fn_lib,
                                        v,
                                        rhs,
                                        idx_values,
                                        chain is Index,
                                        op_pos,
                                        level,
                                        new_val,
                                    );
                                    Outcome {
                                        result: match h.result {
                                            Ok((v, _)) => Ok(v),
                                            Err(e) => Err(e),
                                        },
                                        ..l
                                    }
                                },
                            }
                        },
                    },
                }
            },
            _ => Outcome {
                result: Err(ErrorValue::ErrorDotExpr(Seq::empty(), chain.position())),
                scope,
                always_search,
            },
        }
    }

    /// The outcome of one step of the walk along a chain, and of all steps after it.
    ///
    /// The step takes the last of the index values. In index mode the target
    /// is indexed by it: the walk goes on from what is found, or, at the end
    /// of the chain, what is found is written (the place is made if need be)
    /// or read. In dot mode a method is called with the target as its first
    /// argument; a property of an object map is the entry of that name; a
    /// property of anything else is read by its getter and written by its
    /// setter, and where the walk goes on from such a property, what the getter
    /// gave is written back by the setter if the rest of the walk may have
    /// changed it.
    pub open spec fn helper_outcome(
        &self,
        fn_lib: Map<u64, FnDefValue>,
        target: Value,
        rhs: ExprValue,
        idx_values: Seq<Value>,
        is_index: bool,
        op_pos: Position,
        level: nat,
        new_val: Option<Value>,
    ) -> ChainOutcome
        decreases 10 * self.depth_left(level) + 9, rhs, 1int, 0int,
    {
        let idx_val = last_index(idx_values);
        let rest = rest_indexes(idx_values);
        if is_index {
            match rhs {
                ExprValue::Dot(idx, idx_rhs, pos) => self.descend(
                    fn_lib,
                    target,
                    idx_val,
                    idx.position(),
                    rhs,
                    rest,
                    op_pos,
                    level,
                    new_val,
                ),
                ExprValue::Index(idx, idx_rhs, pos) => self.descend(
                    fn_lib,
                    target,
                    idx_val,
                    idx.position(),
                    rhs,
                    rest,
                    op_pos,
                    level,
                    new_val,
                ),
                _ => self.terminal(target, idx_val, rhs.position(), rhs.position(), rest, op_pos, new_val),
            }
        } else {
            match rhs {
                ExprValue::FnCall(fn_name, _, def_val, pos) => {
                    let extra = match idx_val {
                        Value::Array(vals) => vals,
                        _ => Seq::empty(),
                    };
                    let c = self.fn_call_outcome(
                        fn_lib,
                        fn_name,
                        seq![target] + extra,
                        def_val,
                        pos,
                        level,
                    );
                    ChainOutcome {
                        result: match c.result {
                            Ok(v) => Ok((v, true)),
                            Err(e) => Err(e),
                        },
                        target: if c.args.len() > 0 {
                            c.args[0]
                        } else {
                            target
                        },
                        idx_values: rest,
                    }
                },
                ExprValue::Property(id, pos) => if target is ObjMap {
                    self.terminal(target, Value::Str(id), pos, rhs.position(), rest, op_pos, new_val)
                } else {
                    match new_val {
                        Some(v) => {
                            let c = self.fn_call_outcome(
                                fn_lib,
                                FUNC_SETTER@ + id,
                                seq![target, v],
                                None,
                                pos,
                                level,
                            );
                            ChainOutcome {
                                result: match c.result {
                                    Ok(_) => Ok((Value::Unit, true)),
                                    Err(e) => Err(e),
                                },
                                target: if c.args.len() > 0 {
                                    c.args[0]
                                } else {
                                    target
                                },
                                idx_values: rest,
                            }
                        },
                        None => {
                            let c = self.fn_call_outcome(
                                fn_lib,
                                FUNC_GETTER@ + id,
                                seq![target],
                                None,
                                pos,
                                level,
                            );
                            ChainOutcome {
                                result: match c.result {
                                    Ok(v) => Ok((v, false)),
                                    Err(e) => Err(e),
                                },
                                target: if c.args.len() > 0 {
                                    c.args[0]
                                } else {
                                    target
                                },
                                idx_values: rest,
                            }
                        },
                    }
                },
                ExprValue::Index(dot_lhs, dot_rhs, pos) => self.through_property(
                    fn_lib,
                    target,
                    rhs,
                    rest,
                    op_pos,
                    level,
                    new_val,
                ),
                ExprValue::Dot(dot_lhs, dot_rhs, pos) => self.through_property(
                    fn_lib,
                    target,
                    rhs,
                    rest,
                    op_pos,
                    level,
                    new_val,
                ),
                _ => ChainOutcome {
                    result: Err(ErrorValue::ErrorDotExpr(Seq::empty(), rhs.position())),
                    target,
                    idx_values: rest,
                },
            }
        }
    }

    /// The end of a chain at an indexed place: a write through the handle
    /// (the place is made if need be), or a read of what the handle stands for.
    pub open spec fn terminal(
        &self,
        target: Value,
        idx_val: Value,
        idx_pos: Position,
        set_pos: Position,
        rest: Seq<Value>,
        op_pos: Position,
        new_val: Option<Value>,
    ) -> ChainOutcome {
        match new_val {
            Some(v) => {
                let (t, base) = self.indexed(target, idx_val, idx_pos, op_pos, true);
                match t {
                    Err(e) => ChainOutcome { result: Err(e), target: base, idx_values: rest },
                    Ok(t) => {
                        let (w, after) = t.written(base, v, set_pos);
                        ChainOutcome {
                            result: match w {
                                Ok(_) => Ok((Value::Unit, true)),
                                Err(e) => Err(e),
                            },
                            target: after,
                            idx_values: rest,
                        }
                    },
                }
            },
            None => {
                let (t, base) = self.indexed(target, idx_val, idx_pos, op_pos, false);
                ChainOutcome {
                    result: match t {
                        Ok(t) => Ok((t.content(base), false)),
                        Err(e) => Err(e),
                    },
                    target: base,
                    idx_values: rest,
                }
            },
        }
    }

    /// A step in index mode that the walk goes on from: the target is indexed,
    /// the rest of the chain walks what is found, and a place takes what the
    /// walk leaves there.
    pub open spec fn descend(
        &self,
        fn_lib: Map<u64, FnDefValue>,
        target: Value,
        idx_val: Value,
        idx_pos: Position,
        rhs: ExprValue,
        rest: Seq<Value>,
        op_pos: Position,
        level: nat,
        new_val: Option<Value>,
    ) -> ChainOutcome
        decreases 10 * self.depth_left(level) + 9, rhs, 0int, 1int,
    {
        let parts = match rhs {
            ExprValue::Index(_, sub, pos) => Some((*sub, pos)),
            ExprValue::Dot(_, sub, pos) => Some((*sub, pos)),
            _ => None,
        };
        match parts {
            Some((sub, pos)) => {
                let (t, base) = self.indexed(target, idx_val, idx_pos, op_pos, false);
                match t {
                    Err(e) => ChainOutcome { result: Err(e), target: base, idx_values: rest },
                    Ok(t) => {
                        let h = self.helper_outcome(
                            fn_lib,
                            t.content(base),
                            sub,
                            rest,
                            rhs is Index,
                            pos,
                            level,
                            new_val,
                        );
                        ChainOutcome {
                            result: h.result,
                            target: t.put(base, h.target),
                            idx_values: h.idx_values,
                        }
                    },
                }
            },
            None => ChainOutcome {
                result: Err(ErrorValue::ErrorDotExpr(Seq::empty(), rhs.position())),
                target,
                idx_values: rest,
            },
        }
    }

    /// A step in dot mode that the walk goes on from: the left part must be a
    /// property. On an object map the walk goes on from the entry of that
    /// name; on anything else it goes through the property's getter and setter.
    pub open spec fn through_property(
        &self,
        fn_lib: Map<u64, FnDefValue>,
        target: Value,
        rhs: ExprValue,
        rest: Seq<Value>,
        op_pos: Position,
        level: nat,
        new_val: Option<Value>,
    ) -> ChainOutcome
        decreases 10 * self.depth_left(level) + 9, rhs, 0int, 1int,
    {
        let parts = match rhs {
            ExprValue::Index(lhs, sub, pos) => Some((*lhs, *sub, pos)),
            ExprValue::Dot(lhs, sub, pos) => Some((*lhs, *sub, pos)),
            _ => None,
        };
        match parts {
            Some((ExprValue::Property(id, id_pos), sub, pos)) => if target is ObjMap {
                let (t, base) = self.indexed(target, Value::Str(id), id_pos, op_pos, false);
                match t {
                    Err(e) => ChainOutcome { result: Err(e), target: base, idx_values: rest },
                    Ok(t) => {
                        let h = self.helper_outcome(
                            fn_lib,
                            t.content(base),
                            sub,
                            rest,
                            rhs is Index,
                            pos,
                            level,
                            new_val,
                        );
                        ChainOutcome {
                            result: h.result,
                            target: t.put(base, h.target),
                            idx_values: h.idx_values,
                        }
                    },
                }
            } else {
                self.through_accessors(fn_lib, target, rhs, rest, level, new_val)
            },
            _ => ChainOutcome {
                result: Err(ErrorValue::ErrorDotExpr(Seq::empty(), rhs.position())),
                target,
                idx_values: rest,
            },
        }
    }

    /// A step in dot mode through a property of a value that is no object
    /// map: the getter gives a temporary, the walk goes on from it, and if the
    /// walk may have changed it, the setter writes it back. A missing setter
    /// is passed over in silence.
    pub open spec fn through_accessors(
        &self,
        fn_lib: Map<u64, FnDefValue>,
        target: Value,
        rhs: ExprValue,
        rest: Seq<Value>,
        level: nat,
        new_val: Option<Value>,
    ) -> ChainOutcome
        decreases 10 * self.depth_left(level) + 9, rhs, 0int, 0int,
    {
        let parts = match rhs {
            ExprValue::Index(lhs, sub, pos) => Some((*lhs, *sub, pos)),
            ExprValue::Dot(lhs, sub, pos) => Some((*lhs, *sub, pos)),
            _ => None,
        };
        match parts {
            Some((ExprValue::Property(id, id_pos), sub, pos)) => {
                let g = self.fn_call_outcome(fn_lib, FUNC_GETTER@ + id, seq![target], None, id_pos, level);
                let obj = if g.args.len() > 0 {
                    g.args[0]
                } else {
                    target
                };
                match g.result {
                    Err(e) => ChainOutcome { result: Err(e), target: obj, idx_values: rest },
                    Ok(got) => {
                        let h = self.helper_outcome(
                            fn_lib,
                            got,
                            sub,
                            rest,
                            rhs is Index,
                            pos,
                            level,
                            new_val,
                        );
                        match h.result {
                            Ok((v, true)) => self.written_back(
                                fn_lib,
                                obj,
                                FUNC_SETTER@ + id,
                                h.target,
                                v,
                                h.idx_values,
                                id_pos,
                                level,
                            ),
                            _ => ChainOutcome { result: h.result, target: obj, idx_values: h.idx_values },
                        }
                    },
                }
            },
            _ => ChainOutcome {
                result: Err(ErrorValue::ErrorDotExpr(Seq::empty(), rhs.position())),
                target,
                idx_values: rest,
            },
        }
    }

    /// What a walk through a property ends with after the setter was given
    /// the value that the walk may have changed: the walk's own result, unless
    /// the setter fails with anything but its own absence.
    pub open spec fn written_back(
        &self,
        fn_lib: Map<u64, FnDefValue>,
        obj: Value,
        setter: Seq<char>,
        changed: Value,
        v: Value,
        rest: Seq<Value>,
        pos: Position,
        level: nat,
    ) -> ChainOutcome
        decreases 10 * self.depth_left(level) + 6,
    {
        let s = self.fn_call_outcome(fn_lib, setter, seq![obj, changed], None, pos, level);
        ChainOutcome {
            result: match s.result {
                Ok(_) => Ok((v, true)),
                Err(ErrorValue::ErrorDotExpr(_, _)) => Ok((v, true)),
                Err(e) => Err(e),
            },
            target: if s.args.len() > 0 {
                s.args[0]
            } else {
                obj
            },
            idx_values: rest,
        }
    }

    /// The outcome of a whole script in the given scope: its statements in
    /// order, at the outermost level, a `return` at the end of it.
    pub open spec fn run_outcome(
        &self,
        scope: Seq<EntryValue>,
        fn_lib: Map<u64, FnDefValue>,
        statements: Seq<StmtValue>,
    ) -> Outcome {
        let b = self.stmts_outcome(scope, false, fn_lib, statements, 0, Value::Unit, 0);
        Outcome { result: finished(b.result), scope: b.scope, always_search: b.always_search }
    }

    /// The outcome of a compiled script in the given scope.
    pub open spec fn ast_outcome(&self, scope: Seq<EntryValue>, ast: &AST) -> Outcome {
        self.run_outcome(scope, ast.fn_lib@, stmts_of(ast.statements@))
    }
}

} // verus!
