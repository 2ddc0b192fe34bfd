//! Checks on the arguments of a job that hands them to a search tool.

use crate::error::{ErrorKind, IoError, IoErrorView};
use vstd::prelude::*;

verus! {

/// The failure of kind `Other` that carries `message`.
pub open spec fn other_error(message: Seq<char>) -> IoErrorView {
    IoErrorView { kind: ErrorKind::Other, message }
}

/// Whether an argument reads as an option: its first character is a dash.
pub open spec fn starts_with_dash(arg: Seq<char>) -> bool {
    arg.len() > 0 && arg[0] == '-'
}

/// Makes the failure that carries `msg`.
pub fn err(msg: &str) -> (failure: Result<(), IoError>)
    ensures
        failure matches Err(error) && error@ == other_error(msg@),
{
    Err(IoError::other(msg))
}

/// Accepts arguments whose first one can be searched for: there is one,
/// and it is not empty.
pub fn _searchable_args(args: &[String]) -> (checked: Result<(), IoError>)
    ensures
        match checked {
            Ok(()) => args.len() > 0 && args.deep_view()[0].len() > 0,
            Err(error) => {
                &&& args.len() == 0 || args.deep_view()[0].len() == 0
                &&& error@ == other_error("Search entry empty"@)
            },
        },
{
    if args.len() == 0 || args[0].as_str().is_empty() {
        return err("Search entry empty");
    }
    Ok(())
}

/// Accepts arguments of which at least one is no option.  With options
/// alone, and with no arguments at all, there is nothing to search for.
pub fn _all_args_start_with_dash(args: &[String]) -> (checked: Result<(), IoError>)
    ensures
        match checked {
            Ok(()) => exists|i: int|
                0 <= i < args.len() && !starts_with_dash(#[trigger] args.deep_view()[i]),
            Err(error) => {
                &&& forall|i: int|
                    0 <= i < args.len() ==> starts_with_dash(#[trigger] args.deep_view()[i])
                &&& error@ == other_error("All args start with dash"@)
            },
        },
{
    let mut i: usize = 0;
    while i < args.len()
        invariant
            i <= args.len(),
            forall|j: int| 0 <= j < i ==> starts_with_dash(#[trigger] args.deep_view()[j]),
        decreases args.len() - i,
    {
        let arg = args[i].as_str();
        if arg.is_empty() || arg.get_char(0) != '-' {
            assert(!starts_with_dash(args.deep_view()[i as int]));
            return Ok(());
        }
        i += 1;
    }
    err("All args start with dash")
}

} // verus!
