//! The engine's surface: compiling and evaluating scripts, and calling the
//! functions that a script defines.

use vstd::prelude::*;
use crate::any::{Dynamic, Value, values_of};
use crate::engine::{Engine, Host};
use crate::optimize::optimize_into_ast;
use crate::parser::AST;
use crate::result::{EvalAltResult, ErrorValue, result_view};
use crate::rewrite::{ast_optimized, names_of, optimized, optimized_lib};
use crate::scope::Scope;
use crate::semantics::CallOutcome;
use crate::token::Position;
use crate::utils::fn_def_hash;

verus! {

/// Take an integer out of a result value, or report the type that it has.
pub fn cast_int(value: Dynamic) -> (r: Result<i64, EvalAltResult>)
    ensures
        match r {
            Ok(i) => value@ == Value::Int(i),
            Err(e) => !(value@ is Int) && e@ == ErrorValue::ErrorMismatchOutputType(
                value@.type_label(),
                Position::spec_none(),
            ),
        },
{
    match value {
        Dynamic::Int(i) => Ok(i),
        other => Err(EvalAltResult::ErrorMismatchOutputType(other.type_label().to_owned(), Position::none())),
    }
}

/// Take a boolean out of a result value, or report the type that it has.
pub fn cast_bool(value: Dynamic) -> (r: Result<bool, EvalAltResult>)
    ensures
        match r {
            Ok(b) => value@ == Value::Bool(b),
            Err(e) => !(value@ is Bool) && e@ == ErrorValue::ErrorMismatchOutputType(
                value@.type_label(),
                Position::spec_none(),
            ),
        },
{
    match value {
        Dynamic::Bool(b) => Ok(b),
        other => Err(EvalAltResult::ErrorMismatchOutputType(other.type_label().to_owned(), Position::none())),
    }
}

/// Take a character out of a result value, or report the type that it has.
pub fn cast_char(value: Dynamic) -> (r: Result<char, EvalAltResult>)
    ensures
        match r {
            Ok(c) => value@ == Value::Char(c),
            Err(e) => !(value@ is Char) && e@ == ErrorValue::ErrorMismatchOutputType(
                value@.type_label(),
                Position::spec_none(),
            ),
        },
{
    match value {
        Dynamic::Char(c) => Ok(c),
        other => Err(EvalAltResult::ErrorMismatchOutputType(other.type_label().to_owned(), Position::none())),
    }
}

/// Take a string out of a result value, or report the type that it has.
pub fn cast_string(value: Dynamic) -> (r: Result<String, EvalAltResult>)
    ensures
        match r {
            Ok(s) => value@ == Value::Str(s@),
            Err(e) => !(value@ is Str) && e@ == ErrorValue::ErrorMismatchOutputType(
                value@.type_label(),
                Position::spec_none(),
            ),
        },
{
    match value {
        Dynamic::Str(s) => Ok(s),
        other => Err(EvalAltResult::ErrorMismatchOutputType(other.type_label().to_owned(), Position::none())),
    }
}

/// Check that a result value is unit, or report the type that it has.
pub fn cast_unit(value: Dynamic) -> (r: Result<(), EvalAltResult>)
    ensures
        match r {
            Ok(_) => value@ == Value::Unit,
            Err(e) => !(value@ is Unit) && e@ == ErrorValue::ErrorMismatchOutputType(
                value@.type_label(),
                Position::spec_none(),
            ),
        },
{
    match value {
        Dynamic::Unit => Ok(()),
        other => Err(EvalAltResult::ErrorMismatchOutputType(other.type_label().to_owned(), Position::none())),
    }
}

impl<H: Host> Engine<H> {
    /// Compile a script into an `AST`, optimized as the engine is set to,
    /// with the constants of the scope known.
    pub fn compile_with_scope(&self, scope: &Scope, script: &str) -> (r: Result<AST, EvalAltResult>)
        ensures
            match self.host.parsed(script@) {
                Err((t, p)) => r matches Err(e) && e@ == ErrorValue::ErrorParsing(t, p),
                Ok((statements, functions)) => r matches Ok(ast) && ast_optimized(
                    self,
                    scope@,
                    statements,
                    functions,
                    self.optimization_level,
                    &ast,
                ),
            },
    {
        match self.host.compile(script) {
            Err((t, p)) => Err(EvalAltResult::ErrorParsing(t, p)),
            Ok((statements, functions)) => Ok(
                optimize_into_ast(self, scope, statements, functions, self.optimization_level),
            ),
        }
    }

    /// Compile a script into an `AST`, optimized as the engine is set to.
    pub fn compile(&self, script: &str) -> (r: Result<AST, EvalAltResult>)
        ensures
            match self.host.parsed(script@) {
                Err((t, p)) => r matches Err(e) && e@ == ErrorValue::ErrorParsing(t, p),
                Ok((statements, functions)) => r matches Ok(ast) && ast_optimized(
                    self,
                    Seq::empty(),
                    statements,
                    functions,
                    self.optimization_level,
                    &ast,
                ),
            },
    {
        let scope = Scope::new();
        self.compile_with_scope(&scope, script)
    }

    /// Evaluate an `AST` in a scope of its own.
    pub fn eval_ast(&self, ast: &AST) -> (r: Result<Dynamic, EvalAltResult>)
        ensures
            result_view(r) == self.ast_outcome(Seq::empty(), ast).result,
    {
        let mut scope = Scope::new();
        self.eval_ast_with_scope_raw(&mut scope, ast)
    }

    /// Evaluate an `AST` in the given scope.
    pub fn eval_ast_with_scope(&self, scope: &mut Scope, ast: &AST) -> (r: Result<Dynamic, EvalAltResult>)
        ensures
            result_view(r) == self.ast_outcome(old(scope)@, ast).result,
            final(scope)@ == self.ast_outcome(old(scope)@, ast).scope,
    {
        self.eval_ast_with_scope_raw(scope, ast)
    }

    /// Evaluate a script in the given scope: the script is compiled with the
    /// constants of the scope known, and what it is compiled to is evaluated.
    pub fn eval_with_scope(&self, scope: &mut Scope, script: &str) -> (r: Result<Dynamic, EvalAltResult>)
        ensures
            match self.host.parsed(script@) {
                Err((t, p)) => r matches Err(e) && e@ == ErrorValue::ErrorParsing(t, p) && final(scope)@
                    == old(scope)@,
                Ok((statements, functions)) => {
                    let run = self.run_outcome(
                        old(scope)@,
                        optimized_lib(self, self.optimization_level, functions),
                        optimized(
                            self,
                            names_of(functions),
                            self.optimization_level,
                            old(scope)@,
                            statements,
                        ),
                    );
                    result_view(r) == run.result && final(scope)@ == run.scope
                },
            },
    {
        match self.compile_with_scope(scope, script) {
            Err(e) => Err(e),
            Ok(ast) => self.eval_ast_with_scope_raw(scope, &ast),
        }
    }

    /// Evaluate a script in a scope of its own.
    pub fn eval(&self, script: &str) -> (r: Result<Dynamic, EvalAltResult>)
        ensures
            match self.host.parsed(script@) {
                Err((t, p)) => r matches Err(e) && e@ == ErrorValue::ErrorParsing(t, p),
                Ok((statements, functions)) => result_view(r) == self.run_outcome(
                    Seq::empty(),
                    optimized_lib(self, self.optimization_level, functions),
                    optimized(
                        self,
                        names_of(functions),
                        self.optimization_level,
                        Seq::empty(),
                        statements,
                    ),
                ).result,
            },
    {
        let mut scope = Scope::new();
        self.eval_with_scope(&mut scope, script)
    }

    /// Call a function that a script defines, by its name, with the given
    /// arguments and on top of the given scope. Where the script defines no
    /// function of this name and number of arguments, none is found.
    pub fn call_fn(&self, scope: &mut Scope, ast: &AST, name: &str, args: &mut Vec<Dynamic>) -> (r: Result<
        Dynamic,
        EvalAltResult,
    >)
        ensures
            match ast.fn_lib@.contains_key(fn_def_hash(name@, old(args)@.len())) {
                true => (CallOutcome {
                    result: result_view(r),
                    args: values_of(final(args)@),
                    scope: final(scope)@,
                }) == self.lib_call_outcome(
                    old(scope)@,
                    ast.fn_lib@,
                    ast.fn_lib@[fn_def_hash(name@, old(args)@.len())],
                    values_of(old(args)@),
                    Position::spec_none(),
                    0,
                ),
                false => r matches Err(e) && e@ == ErrorValue::ErrorFunctionNotFound(
                    name@,
                    Position::spec_none(),
                ) && final(scope)@ == old(scope)@ && *final(args) == *old(args),
            },
    {
        let pos = Position::none();
        match ast.fn_lib.get_function(name, args.len()) {
            Some(fn_def) => self.call_fn_from_lib(scope, &ast.fn_lib, fn_def, args, pos, 0),
            None => Err(EvalAltResult::ErrorFunctionNotFound(name.to_owned(), pos)),
        }
    }
}

} // verus!
