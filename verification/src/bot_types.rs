//! The data that the command framework hands to every command.

use vstd::prelude::*;

verus! {

/// The user data of the command framework: the bot keeps none.
#[derive(Debug, PartialEq, Eq)]
pub struct Data {}

} // verus!
