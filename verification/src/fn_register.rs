//! Helpers for bringing the results of native functions into the form that
//! the engine's dispatch expects.

use vstd::prelude::*;
use crate::any::Dynamic;
use crate::result::EvalAltResult;
use crate::token::Position;

verus! {

/// Identity dereferencing function.
pub fn identity<T>(data: &mut T) -> (r: &mut T)
    ensures
        *r == *old(data),
        *final(data) == *final(r),
{
    data
}

/// Clone dereferencing function.
pub fn cloned<T: Clone>(data: &mut T) -> (r: T)
    ensures
        vstd::pervasive::cloned::<T>(*old(data), r),
        *final(data) == *old(data),
{
    data.clone()
}

/// To Dynamic mapping function.
pub fn map_dynamic(data: Dynamic, _pos: Position) -> (r: Result<Dynamic, EvalAltResult>)
    ensures
        r == Ok::<Dynamic, EvalAltResult>(data),
{
    Ok(data)
}

/// To Dynamic mapping function.
pub fn map_identity(data: Dynamic, _pos: Position) -> (r: Result<Dynamic, EvalAltResult>)
    ensures
        r == Ok::<Dynamic, EvalAltResult>(data),
{
    Ok(data)
}

/// To `Result<Dynamic, EvalAltResult>` mapping function: a value stays, an
/// error moves to the position of the call.
pub fn map_result(data: Result<Dynamic, EvalAltResult>, pos: Position) -> (r: Result<Dynamic, EvalAltResult>)
    ensures
        match data {
            Ok(v) => r == Ok::<Dynamic, EvalAltResult>(v),
            Err(e) => r matches Err(e2) && e2@ == e@.at(pos),
        },
{
    match data {
        Ok(v) => Ok(v),
        Err(err) => Err(err.set_position(pos)),
    }
}

} // verus!
