//! What can be wrong with the flags and variables that the options are deduced from.

use vstd::prelude::*;

use crate::flags::Flag;
use crate::number::ParseFailure;
use crate::token::ValueToken;

verus! {

/// Where a number that failed to parse was read from.
#[derive(Debug, Clone, Copy, PartialEq, Eq)]
pub enum NumberSource {
    /// The environment variable of this name.
    Env(&'static str),
}

/// A `NumberSource` as a mathematical value.
pub enum NumberSourceView {
    Env(Seq<char>),
}

impl View for NumberSource {
    type V = NumberSourceView;

    open spec fn view(&self) -> NumberSourceView {
        match *self {
            NumberSource::Env(name) => NumberSourceView::Env(name@),
        }
    }
}

/// An error that stops the options from being deduced.
#[derive(Debug, Clone, PartialEq, Eq)]
pub enum OptionsError {
    /// The value given to the flag is none of the words that the flag knows.
    BadArgument(Flag, ValueToken),
    /// The flag was given more than once where that is not tolerated.
    Duplicate(Flag, Flag),
    /// The text, read from the given source, is not a number.
    FailedParse(String, NumberSource, ParseFailure),
}

/// An `OptionsError` as a mathematical value.
pub enum OptionsErrorView {
    BadArgument(Flag, Seq<u8>),
    Duplicate(Flag, Flag),
    FailedParse(Seq<char>, NumberSourceView, ParseFailure),
}

impl View for OptionsError {
    type V = OptionsErrorView;

    open spec fn view(&self) -> OptionsErrorView {
        match *self {
            OptionsError::BadArgument(flag, word) => OptionsErrorView::BadArgument(flag, word@),
            OptionsError::Duplicate(first, second) => OptionsErrorView::Duplicate(first, second),
            OptionsError::FailedParse(text, source, failure) => OptionsErrorView::FailedParse(
                text@,
                source@,
                failure,
            ),
        }
    }
}

/// A result whose error is taken by its view.
pub open spec fn outcome<T>(result: Result<T, OptionsError>) -> Result<T, OptionsErrorView> {
    match result {
        Ok(value) => Ok(value),
        Err(error) => Err(error@),
    }
}

} // verus!
