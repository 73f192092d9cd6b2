//! The name under which the program logs.

use vstd::prelude::*;
use vstd::string::*;
use crate::command::application::BINARY_NAME;

verus! {

/// The name of the executable, which is also the name of its log.
pub fn get_binary_name() -> (r: String)
    ensures
        r@ == BINARY_NAME@,
{
    String::from_str(BINARY_NAME)
}

} // verus!
