//! The command-line acceptance rule.
//!
//! The program takes one positional argument, the raster path; a second
//! positional argument is tolerated but ignored. Counting the program name,
//! an invocation is accepted exactly when it carries two or three arguments;
//! anything else is rejected with a usage message before any input is read.

use vstd::prelude::*;

verus! {

/// Whether an invocation with `arg_count` arguments (program name included)
/// is accepted.
pub fn args_accepted(arg_count: usize) -> (r: bool)
    ensures
        r <==> (2 <= arg_count && arg_count <= 3),
{
    2 <= arg_count && arg_count <= 3
}

/// The usage message shown when the argument count is rejected.
pub fn usage_message() -> (r: &'static str)
    ensures
        r@ == "Need one input file as a positional argument."@,
{
    "Need one input file as a positional argument."
}

} // verus!
