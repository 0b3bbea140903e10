//! Resolving the reference table's path: a fixed subpath under the
//! user's home directory.

use vstd::prelude::*;

use crate::errors::OuiError;

verus! {

/// The fixed subpath of the reference table under the home directory.
pub open spec fn table_subpath() -> Seq<char> {
    "/.local/share/oui/IEEE_OUI.csv"@
}

/// Build the path of the reference table from the home directory.
///
/// The caller hands in the value of the home-directory variable, or
/// nothing where it is unset: an absent home fails with `EnvError`, a
/// present one yields the home followed by the fixed subpath.
pub fn get_csv_path(home: Option<&String>) -> (r: Result<String, OuiError>)
    ensures
        home is None ==> r == Err::<String, OuiError>(OuiError::EnvError),
        home matches Some(h) ==> (r matches Ok(p) && p@ == h@ + table_subpath()),
{
    match home {
        None => Err(OuiError::EnvError),
        Some(h) => {
            let mut path = (*h).clone();
            path.append("/.local/share/oui/IEEE_OUI.csv");
            Ok(path)
        },
    }
}

} // verus!
