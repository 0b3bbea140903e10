//! The arity decision of the command line: the program takes exactly
//! one positional argument, the raw MAC address.

use vstd::prelude::*;

use crate::errors::OuiError;

verus! {

/// Pick the raw MAC address out of the argument vector.
///
/// The vector is the full command line, its first element the program
/// name. Exactly one positional argument is accepted; any other arity
/// fails with `UsageError`.
pub fn mac_argument(args: &Vec<String>) -> (r: Result<&String, OuiError>)
    ensures
        args@.len() == 2 ==> (r matches Ok(m) && *m == args@[1]),
        args@.len() != 2 ==> r == Err::<&String, OuiError>(OuiError::UsageError),
{
    if args.len() == 2 {
        Ok(&args[1])
    } else {
        Err(OuiError::UsageError)
    }
}

} // verus!
