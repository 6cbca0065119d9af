//! The errors that a call of a native function can end in.

use crate::dynamic::{Dynamic, Value};
use vstd::prelude::*;
use vstd::string::*;

verus! {

/// A place in a script: line and column, both zero where no place is known.
#[derive(Clone, Copy, Debug, PartialEq, Eq, Structural)]
pub struct Position {
    pub line: u16,
    pub pos: u16,
}

impl Position {
    /// The position of an error that belongs to no place in a script.
    pub open spec fn spec_none() -> Position {
        Position { line: 0, pos: 0 }
    }

    /// The position of an error that belongs to no place in a script.
    #[verifier::when_used_as_spec(spec_none)]
    pub fn none() -> (res: Position)
        ensures
            res == Position::spec_none(),
    {
        Position { line: 0, pos: 0 }
    }
}

/// An error raised while a script runs.
#[derive(Debug, PartialEq)]
pub enum EvalAltResult {
    /// No function is registered under this signature.
    ErrorFunctionNotFound(String, Position),
    /// A function called by name, from the given source, ended in the error
    /// wrapped here.
    ErrorInFunctionCall(String, String, Box<EvalAltResult>, Position),
    /// A constant, named here, was about to be written to.
    ErrorAssignmentToConstant(String, Position),
    /// An arithmetic operation went wrong; the text says how.
    ErrorArithmetic(String, Position),
    /// A value of the kind named here grew over the size that the engine allows.
    ErrorDataTooLarge(String, Position),
    /// An error that a script or a native function raised with a value of its own.
    ErrorRuntime(Dynamic, Position),
}

/// What an error says, with text as characters and values as what they stand for.
pub enum ErrorValue {
    FunctionNotFound(Seq<char>, Position),
    InFunctionCall(Seq<char>, Seq<char>, Box<ErrorValue>, Position),
    AssignmentToConstant(Seq<char>, Position),
    Arithmetic(Seq<char>, Position),
    DataTooLarge(Seq<char>, Position),
    Runtime(Value, Position),
}

/// What an error says.
pub open spec fn error_value(e: EvalAltResult) -> ErrorValue
    decreases e,
{
    match e {
        EvalAltResult::ErrorFunctionNotFound(sig, p) => ErrorValue::FunctionNotFound(sig@, p),
        EvalAltResult::ErrorInFunctionCall(name, source, inner, p) => ErrorValue::InFunctionCall(
            name@,
            source@,
            Box::new(error_value(*inner)),
            p,
        ),
        EvalAltResult::ErrorAssignmentToConstant(name, p) => ErrorValue::AssignmentToConstant(
            name@,
            p,
        ),
        EvalAltResult::ErrorArithmetic(text, p) => ErrorValue::Arithmetic(text@, p),
        EvalAltResult::ErrorDataTooLarge(what, p) => ErrorValue::DataTooLarge(what@, p),
        EvalAltResult::ErrorRuntime(value, p) => ErrorValue::Runtime(value@, p),
    }
}

impl View for EvalAltResult {
    type V = ErrorValue;

    open spec fn view(&self) -> ErrorValue {
        error_value(*self)
    }
}

/// An arithmetic error with the given text, at no place in particular.
pub fn make_arithmetic_err(text: String) -> (res: Box<EvalAltResult>)
    ensures
        *res == EvalAltResult::ErrorArithmetic(text, Position::none()),
{
    Box::new(EvalAltResult::ErrorArithmetic(text, Position::none()))
}

impl EvalAltResult {
    /// The signature that was looked for, where the error says that no
    /// function was found.
    pub fn missing_function(&self) -> (res: Option<&String>)
        ensures
            res == (match *self {
                EvalAltResult::ErrorFunctionNotFound(sig, _) => Some(&sig),
                _ => None,
            }),
    {
        match self {
            EvalAltResult::ErrorFunctionNotFound(sig, _) => Some(sig),
            _ => None,
        }
    }
}

} // verus!
