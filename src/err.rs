//! The errors that parsing can end in.
use vstd::prelude::*;

verus! {

/// Why a line or a whole class could not be parsed.
#[derive(Debug)]
pub enum ParserError {
    /// A `.class` line without a class path; holds the line.
    MissingClassPath(String),
    /// A reference token that is not of the form `L...;`; holds the token.
    InvalidClassPath(String),
    /// A `.super` line without a path; holds the line.
    MissingSuperPath(String),
    /// An `.implements` line without a path; holds the line.
    MissingInterfacePath(String),
    /// The input holds no `.class` line.
    MissingClass(),
    /// The input holds more than one `.class` line.
    TooManyClasses(),
    /// The input holds more than one `.super` line.
    TooManySupers(),
    /// A `.field` line whose payload is not `name:type`.
    InvalidField(),
    /// A `.method` line whose payload is not `name(params)return`.
    InvalidMethod(),
}

/// The mathematical value of a [`ParserError`].
pub enum Failure {
    MissingClassPath(Seq<char>),
    InvalidClassPath(Seq<char>),
    MissingSuperPath(Seq<char>),
    MissingInterfacePath(Seq<char>),
    MissingClass,
    TooManyClasses,
    TooManySupers,
    InvalidField,
    InvalidMethod,
}

impl View for ParserError {
    type V = Failure;

    open spec fn view(&self) -> Failure {
        match self {
            ParserError::MissingClassPath(s) => Failure::MissingClassPath(s@),
            ParserError::InvalidClassPath(s) => Failure::InvalidClassPath(s@),
            ParserError::MissingSuperPath(s) => Failure::MissingSuperPath(s@),
            ParserError::MissingInterfacePath(s) => Failure::MissingInterfacePath(s@),
            ParserError::MissingClass() => Failure::MissingClass,
            ParserError::TooManyClasses() => Failure::TooManyClasses,
            ParserError::TooManySupers() => Failure::TooManySupers,
            ParserError::InvalidField() => Failure::InvalidField,
            ParserError::InvalidMethod() => Failure::InvalidMethod,
        }
    }
}

/// The view of a parse result: the value's view, or the error's.
pub open spec fn result_view<T: View>(r: Result<T, ParserError>) -> Result<T::V, Failure> {
    match r {
        Ok(v) => Ok(v@),
        Err(e) => Err(e@),
    }
}

pub type ParserResult<T> = Result<T, ParserError>;

} // verus!
