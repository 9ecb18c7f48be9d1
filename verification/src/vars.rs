//! The environment variables that the options are deduced from.

use vstd::prelude::*;

use crate::token::ValueToken;

verus! {

/// The name of the variable that holds the number of columns between an icon
/// and the file name that follows it.
pub const EXA_ICON_SPACING: &'static str = "EXA_ICON_SPACING";

/// A source of environment variables.
///
/// Nothing is promised of what an implementation returns: a function that asks
/// one states what holds whatever the answer is.
pub trait Vars {
    /// The value of the variable of this name, if the variable is set.
    fn get(&self, name: &'static str) -> Option<ValueToken>;
}

} // verus!
