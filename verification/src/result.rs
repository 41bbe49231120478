//! Evaluation results and errors.

use vstd::prelude::*;
use crate::any::{Dynamic, Value};
use crate::token::Position;

verus! {

/// What went wrong while turning a script into a syntax tree.
#[derive(Debug, Clone, Copy, PartialEq, Eq, Structural, Hash)]
pub enum ParseErrorType {
    /// The script text is not a valid script.
    BadInput,
    /// A function is defined where none may be.
    WrongFnDefinition,
}

/// Everything an evaluation can end with other than a plain value, each with
/// the source position it belongs to.
///
/// `S` is the type of texts and `D` the type of values: with `String` and
/// `Dynamic` this is the executable type `EvalAltResult`, with `Seq<char>` and
/// `Value` it is its mathematical model `ErrorValue`.
#[derive(Debug)]
pub enum EvalError<S, D> {
    /// The script could not be parsed.
    ErrorParsing(ParseErrorType, Position),
    /// No function answers to this signature.
    ErrorFunctionNotFound(S, Position),
    /// A function was called with the wrong number of arguments:
    /// its name, the number wanted and the number given.
    ErrorFunctionArgsMismatch(S, usize, usize, Position),
    /// An operand of a boolean operator (named here) is not a boolean.
    ErrorBooleanArgMismatch(S, Position),
    /// A character was wanted.
    ErrorCharMismatch(Position),
    /// Array access out of bounds: the array's length and the index.
    ErrorArrayBounds(usize, i64, Position),
    /// String access out of bounds: the string's length and the index.
    ErrorStringBounds(usize, i64, Position),
    /// A value of the named type cannot be indexed.
    ErrorIndexingType(S, Position),
    /// An array or a string was indexed by something other than an integer.
    ErrorNumericIndexExpr(Position),
    /// An object map was indexed by something other than a string.
    ErrorStringIndexExpr(Position),
    /// The guard of an `if` or `while` is not a boolean.
    ErrorLogicGuard(Position),
    /// The value after `in` of a `for` loop cannot be iterated.
    ErrorFor(Position),
    /// No variable has this name.
    ErrorVariableNotFound(S, Position),
    /// No module has this name.
    ErrorModuleNotFound(S, Position),
    /// The left-hand side of an assignment is no place.
    ErrorAssignmentToUnknownLHS(Position),
    /// Assignment to the named constant.
    ErrorAssignmentToConstant(S, Position),
    /// The result has a type (named here) other than the one asked for.
    ErrorMismatchOutputType(S, Position),
    /// The operands of `in` do not fit.
    ErrorInExpr(Position),
    /// Misuse of the dot operator.
    ErrorDotExpr(S, Position),
    /// The call stack grew beyond its limit.
    ErrorStackOverflow(Position),
    /// A loop ran for more rounds than the engine allows.
    ErrorTooManyOperations(Position),
    /// An error raised by the script itself, or by a native function.
    ErrorRuntime(S, Position),
    /// Not an error: a loop is left (`true`) or its next round begun (`false`).
    ErrorLoopBreak(bool, Position),
    /// Not an error: a function returns this value.
    Return(D, Position),
}

/// An evaluation's error, as the evaluator hands it out.
pub type EvalAltResult = EvalError<String, Dynamic>;

/// The mathematical model of an `EvalAltResult`.
pub type ErrorValue = EvalError<Seq<char>, Value>;

impl View for EvalError<String, Dynamic> {
    type V = EvalError<Seq<char>, Value>;

    open spec fn view(&self) -> EvalError<Seq<char>, Value> {
        match self {
            EvalError::ErrorParsing(t, p) => EvalError::ErrorParsing(*t, *p),
            EvalError::ErrorFunctionNotFound(s, p) => EvalError::ErrorFunctionNotFound(s@, *p),
            EvalError::ErrorFunctionArgsMismatch(s, a, b, p) => EvalError::ErrorFunctionArgsMismatch(
                s@,
                *a,
                *b,
                *p,
            ),
            EvalError::ErrorBooleanArgMismatch(s, p) => EvalError::ErrorBooleanArgMismatch(s@, *p),
            EvalError::ErrorCharMismatch(p) => EvalError::ErrorCharMismatch(*p),
            EvalError::ErrorArrayBounds(a, b, p) => EvalError::ErrorArrayBounds(*a, *b, *p),
            EvalError::ErrorStringBounds(a, b, p) => EvalError::ErrorStringBounds(*a, *b, *p),
            EvalError::ErrorIndexingType(s, p) => EvalError::ErrorIndexingType(s@, *p),
            EvalError::ErrorNumericIndexExpr(p) => EvalError::ErrorNumericIndexExpr(*p),
            EvalError::ErrorStringIndexExpr(p) => EvalError::ErrorStringIndexExpr(*p),
            EvalError::ErrorLogicGuard(p) => EvalError::ErrorLogicGuard(*p),
            EvalError::ErrorFor(p) => EvalError::ErrorFor(*p),
            EvalError::ErrorVariableNotFound(s, p) => EvalError::ErrorVariableNotFound(s@, *p),
            EvalError::ErrorModuleNotFound(s, p) => EvalError::ErrorModuleNotFound(s@, *p),
            EvalError::ErrorAssignmentToUnknownLHS(p) => EvalError::ErrorAssignmentToUnknownLHS(*p),
            EvalError::ErrorAssignmentToConstant(s, p) => EvalError::ErrorAssignmentToConstant(s@, *p),
            EvalError::ErrorMismatchOutputType(s, p) => EvalError::ErrorMismatchOutputType(s@, *p),
            EvalError::ErrorInExpr(p) => EvalError::ErrorInExpr(*p),
            EvalError::ErrorDotExpr(s, p) => EvalError::ErrorDotExpr(s@, *p),
            EvalError::ErrorStackOverflow(p) => EvalError::ErrorStackOverflow(*p),
            EvalError::ErrorTooManyOperations(p) => EvalError::ErrorTooManyOperations(*p),
            EvalError::ErrorRuntime(s, p) => EvalError::ErrorRuntime(s@, *p),
            EvalError::ErrorLoopBreak(b, p) => EvalError::ErrorLoopBreak(*b, *p),
            EvalError::Return(d, p) => EvalError::Return(d@, *p),
        }
    }
}

impl<S, D> EvalError<S, D> {
    /// The source position that the error belongs to.
    pub open spec fn spec_position(self) -> Position {
        match self {
            EvalError::ErrorParsing(_, p) => p,
            EvalError::ErrorFunctionNotFound(_, p) => p,
            EvalError::ErrorFunctionArgsMismatch(_, _, _, p) => p,
            EvalError::ErrorBooleanArgMismatch(_, p) => p,
            EvalError::ErrorCharMismatch(p) => p,
            EvalError::ErrorArrayBounds(_, _, p) => p,
            EvalError::ErrorStringBounds(_, _, p) => p,
            EvalError::ErrorIndexingType(_, p) => p,
            EvalError::ErrorNumericIndexExpr(p) => p,
            EvalError::ErrorStringIndexExpr(p) => p,
            EvalError::ErrorLogicGuard(p) => p,
            EvalError::ErrorFor(p) => p,
            EvalError::ErrorVariableNotFound(_, p) => p,
            EvalError::ErrorModuleNotFound(_, p) => p,
            EvalError::ErrorAssignmentToUnknownLHS(p) => p,
            EvalError::ErrorAssignmentToConstant(_, p) => p,
            EvalError::ErrorMismatchOutputType(_, p) => p,
            EvalError::ErrorInExpr(p) => p,
            EvalError::ErrorDotExpr(_, p) => p,
            EvalError::ErrorStackOverflow(p) => p,
            EvalError::ErrorTooManyOperations(p) => p,
            EvalError::ErrorRuntime(_, p) => p,
            EvalError::ErrorLoopBreak(_, p) => p,
            EvalError::Return(_, p) => p,
        }
    }

    /// The same error at another source position.
    pub open spec fn at(self, pos: Position) -> Self {
        match self {
            EvalError::ErrorParsing(t, _) => EvalError::ErrorParsing(t, pos),
            EvalError::ErrorFunctionNotFound(s, _) => EvalError::ErrorFunctionNotFound(s, pos),
            EvalError::ErrorFunctionArgsMismatch(s, a, b, _) => EvalError::ErrorFunctionArgsMismatch(
                s,
                a,
                b,
                pos,
            ),
            EvalError::ErrorBooleanArgMismatch(s, _) => EvalError::ErrorBooleanArgMismatch(s, pos),
            EvalError::ErrorCharMismatch(_) => EvalError::ErrorCharMismatch(pos),
            EvalError::ErrorArrayBounds(a, b, _) => EvalError::ErrorArrayBounds(a, b, pos),
            EvalError::ErrorStringBounds(a, b, _) => EvalError::ErrorStringBounds(a, b, pos),
            EvalError::ErrorIndexingType(s, _) => EvalError::ErrorIndexingType(s, pos),
            EvalError::ErrorNumericIndexExpr(_) => EvalError::ErrorNumericIndexExpr(pos),
            EvalError::ErrorStringIndexExpr(_) => EvalError::ErrorStringIndexExpr(pos),
            EvalError::ErrorLogicGuard(_) => EvalError::ErrorLogicGuard(pos),
            EvalError::ErrorFor(_) => EvalError::ErrorFor(pos),
            EvalError::ErrorVariableNotFound(s, _) => EvalError::ErrorVariableNotFound(s, pos),
            EvalError::ErrorModuleNotFound(s, _) => EvalError::ErrorModuleNotFound(s, pos),
            EvalError::ErrorAssignmentToUnknownLHS(_) => EvalError::ErrorAssignmentToUnknownLHS(pos),
            EvalError::ErrorAssignmentToConstant(s, _) => EvalError::ErrorAssignmentToConstant(s, pos),
            EvalError::ErrorMismatchOutputType(s, _) => EvalError::ErrorMismatchOutputType(s, pos),
            EvalError::ErrorInExpr(_) => EvalError::ErrorInExpr(pos),
            EvalError::ErrorDotExpr(s, _) => EvalError::ErrorDotExpr(s, pos),
            EvalError::ErrorStackOverflow(_) => EvalError::ErrorStackOverflow(pos),
            EvalError::ErrorTooManyOperations(_) => EvalError::ErrorTooManyOperations(pos),
            EvalError::ErrorRuntime(s, _) => EvalError::ErrorRuntime(s, pos),
            EvalError::ErrorLoopBreak(b, _) => EvalError::ErrorLoopBreak(b, pos),
            EvalError::Return(d, _) => EvalError::Return(d, pos),
        }
    }
}

impl EvalError<String, Dynamic> {
    /// The source position that the error belongs to.
    pub fn position(&self) -> (pos: Position)
        ensures
            pos == self@.spec_position(),
    {
        match self {
            EvalError::ErrorParsing(_, p) => *p,
            EvalError::ErrorFunctionNotFound(_, p) => *p,
            EvalError::ErrorFunctionArgsMismatch(_, _, _, p) => *p,
            EvalError::ErrorBooleanArgMismatch(_, p) => *p,
            EvalError::ErrorCharMismatch(p) => *p,
            EvalError::ErrorArrayBounds(_, _, p) => *p,
            EvalError::ErrorStringBounds(_, _, p) => *p,
            EvalError::ErrorIndexingType(_, p) => *p,
            EvalError::ErrorNumericIndexExpr(p) => *p,
            EvalError::ErrorStringIndexExpr(p) => *p,
            EvalError::ErrorLogicGuard(p) => *p,
            EvalError::ErrorFor(p) => *p,
            EvalError::ErrorVariableNotFound(_, p) => *p,
            EvalError::ErrorModuleNotFound(_, p) => *p,
            EvalError::ErrorAssignmentToUnknownLHS(p) => *p,
            EvalError::ErrorAssignmentToConstant(_, p) => *p,
            EvalError::ErrorMismatchOutputType(_, p) => *p,
            EvalError::ErrorInExpr(p) => *p,
            EvalError::ErrorDotExpr(_, p) => *p,
            EvalError::ErrorStackOverflow(p) => *p,
            EvalError::ErrorTooManyOperations(p) => *p,
            EvalError::ErrorRuntime(_, p) => *p,
            EvalError::ErrorLoopBreak(_, p) => *p,
            EvalError::Return(_, p) => *p,
        }
    }

    /// Move the error to another source position; everything else stays.
    pub fn set_position(self, pos: Position) -> (r: Self)
        ensures
            r@ == self@.at(pos),
    {
        match self {
            EvalError::ErrorParsing(t, _) => EvalError::ErrorParsing(t, pos),
            EvalError::ErrorFunctionNotFound(s, _) => EvalError::ErrorFunctionNotFound(s, pos),
            EvalError::ErrorFunctionArgsMismatch(s, a, b, _) => EvalError::ErrorFunctionArgsMismatch(
                s,
                a,
                b,
                pos,
            ),
            EvalError::ErrorBooleanArgMismatch(s, _) => EvalError::ErrorBooleanArgMismatch(s, pos),
            EvalError::ErrorCharMismatch(_) => EvalError::ErrorCharMismatch(pos),
            EvalError::ErrorArrayBounds(a, b, _) => EvalError::ErrorArrayBounds(a, b, pos),
            EvalError::ErrorStringBounds(a, b, _) => EvalError::ErrorStringBounds(a, b, pos),
            EvalError::ErrorIndexingType(s, _) => EvalError::ErrorIndexingType(s, pos),
            EvalError::ErrorNumericIndexExpr(_) => EvalError::ErrorNumericIndexExpr(pos),
            EvalError::ErrorStringIndexExpr(_) => EvalError::ErrorStringIndexExpr(pos),
            EvalError::ErrorLogicGuard(_) => EvalError::ErrorLogicGuard(pos),
            EvalError::ErrorFor(_) => EvalError::ErrorFor(pos),
            EvalError::ErrorVariableNotFound(s, _) => EvalError::ErrorVariableNotFound(s, pos),
            EvalError::ErrorModuleNotFound(s, _) => EvalError::ErrorModuleNotFound(s, pos),
            EvalError::ErrorAssignmentToUnknownLHS(_) => EvalError::ErrorAssignmentToUnknownLHS(pos),
            EvalError::ErrorAssignmentToConstant(s, _) => EvalError::ErrorAssignmentToConstant(s, pos),
            EvalError::ErrorMismatchOutputType(s, _) => EvalError::ErrorMismatchOutputType(s, pos),
            EvalError::ErrorInExpr(_) => EvalError::ErrorInExpr(pos),
            EvalError::ErrorDotExpr(s, _) => EvalError::ErrorDotExpr(s, pos),
            EvalError::ErrorStackOverflow(_) => EvalError::ErrorStackOverflow(pos),
            EvalError::ErrorTooManyOperations(_) => EvalError::ErrorTooManyOperations(pos),
            EvalError::ErrorRuntime(s, _) => EvalError::ErrorRuntime(s, pos),
            EvalError::ErrorLoopBreak(b, _) => EvalError::ErrorLoopBreak(b, pos),
            EvalError::Return(d, _) => EvalError::Return(d, pos),
        }
    }
}

/// The mathematical model of an evaluation's outcome.
pub open spec fn result_view(r: Result<Dynamic, EvalAltResult>) -> Result<Value, ErrorValue> {
    match r {
        Ok(d) => Ok(d@),
        Err(e) => Err(e@),
    }
}

} // verus!
