//! The lookup engine: a linear scan of a semicolon-delimited
//! two-column table (OUI; vendor name) for an exact OUI match, in file
//! order, first match wins.

use vstd::prelude::*;

use crate::errors::OuiError;
use crate::split::{split_char, split_on};

verus! {

/// The sentinel vendor name returned when a matching row has no
/// vendor column, or an empty one.
pub open spec fn sentinel() -> Seq<char> {
    "Unknown vendor."@
}

/// The line printed when no row of the table matches.
pub open spec fn no_match_line() -> Seq<char> {
    "No match."@
}

/// A line with its trailing carriage return removed, so that a table
/// with CRLF line endings reads as one with bare newlines.
pub open spec fn strip_cr(l: Seq<char>) -> Seq<char> {
    if l.len() > 0 && l.last() == '\r' {
        l.drop_last()
    } else {
        l
    }
}

/// The rows of a table text: the text split at newlines, each line
/// without its trailing carriage return.
pub open spec fn rows_of(t: Seq<char>) -> Seq<Seq<char>> {
    split_on(t, '\n').map_values(|l: Seq<char>| strip_cr(l))
}

/// The columns of a row: the row split at semicolons.
pub open spec fn columns_of(row: Seq<char>) -> Seq<Seq<char>> {
    split_on(row, ';')
}

/// A row that cannot be tokenized into an OUI column and a vendor
/// column: the delimiter splits it into more than two columns.
pub open spec fn row_malformed(row: Seq<char>) -> bool {
    columns_of(row).len() > 2
}

/// Whether the row's first column equals the OUI searched for.
pub open spec fn row_matches(row: Seq<char>, oui: Seq<char>) -> bool {
    columns_of(row)[0] == oui
}

/// The vendor name a matching row yields: its second column, or the
/// sentinel where that column is absent or empty.
pub open spec fn vendor_of(row: Seq<char>) -> Seq<char> {
    let cols = columns_of(row);
    if cols.len() >= 2 && cols[1].len() > 0 {
        cols[1]
    } else {
        sentinel()
    }
}

/// The outcome of scanning rows in order for an OUI: an error on the
/// first malformed row reached, the vendor of the first matching row,
/// or no match at all.
pub open spec fn scan_rows(rows: Seq<Seq<char>>, oui: Seq<char>) -> Result<
    Option<Seq<char>>,
    OuiError,
>
    decreases rows.len(),
{
    if rows.len() == 0 {
        Ok(None)
    } else if row_malformed(rows[0]) {
        Err(OuiError::ParseError)
    } else if row_matches(rows[0], oui) {
        Ok(Some(vendor_of(rows[0])))
    } else {
        scan_rows(rows.drop_first(), oui)
    }
}

/// The outcome of searching a whole table text for an OUI.
pub open spec fn table_scan(t: Seq<char>, oui: Seq<char>) -> Result<
    Option<Seq<char>>,
    OuiError,
> {
    scan_rows(rows_of(t), oui)
}

/// The view of an executable lookup result, for stating that it equals
/// a table scan's outcome.
pub open spec fn res_view(r: Result<Option<String>, OuiError>) -> Result<
    Option<Seq<char>>,
    OuiError,
> {
    match r {
        Ok(Some(v)) => Ok(Some(v@)),
        Ok(None) => Ok(None),
        Err(e) => Err(e),
    }
}

/// An absent OUI is no match, not an error: scanning rows none of
/// which is malformed and none of which matches the OUI yields the
/// no-match outcome.
pub proof fn lemma_absent_oui_is_no_match(rows: Seq<Seq<char>>, oui: Seq<char>)
    requires
        forall|i: int| 0 <= i < rows.len() ==> !row_malformed(#[trigger] rows[i]),
        forall|i: int| 0 <= i < rows.len() ==> !row_matches(#[trigger] rows[i], oui),
    ensures
        scan_rows(rows, oui) == Ok::<Option<Seq<char>>, OuiError>(None),
    decreases rows.len(),
{
    if rows.len() != 0 {
        lemma_absent_oui_is_no_match(rows.drop_first(), oui);
    }
}

/// A copy of `l` without its trailing carriage return, if any.
fn strip_trailing_cr(l: &str) -> (r: String)
    ensures
        r@ == strip_cr(l@),
{
    let n = l.unicode_len();
    if n > 0 && l.get_char(n - 1) == '\r' {
        let body = l.substring_char(0, n - 1);
        proof {
            assert(body@ =~= strip_cr(l@));
        }
        String::from_str(body)
    } else {
        String::from_str(l)
    }
}

/// Search the table text for the OUI, row by row in file order.
///
/// The first row that splits into more than two columns aborts the
/// scan with `ParseError`; the first row whose OUI column equals `oui`
/// wins and yields its vendor name, with the sentinel standing in for
/// an absent or empty vendor column; a scan that exhausts the table
/// yields no match, which is not an error.
pub fn lookup_oui(table: &str, oui: &str) -> (r: Result<Option<String>, OuiError>)
    ensures
        res_view(r) == table_scan(table@, oui@),
{
    let lines = split_char(table, '\n');
    let key = String::from_str(oui);
    let n = lines.len();
    let ghost rows = rows_of(table@);
    proof {
        assert(rows.len() == n);
        assert(rows.skip(0) =~= rows);
    }
    for i in 0..n
        invariant
            n == lines@.len(),
            lines@.map_values(|p: String| p@) == split_on(table@, '\n'),
            rows == rows_of(table@),
            rows.len() == n,
            key@ == oui@,
            scan_rows(rows.skip(i as int), oui@) == table_scan(table@, oui@),
    {
        let row = strip_trailing_cr(lines[i].as_str());
        proof {
            assert(rows.skip(i as int)[0] == rows[i as int]);
            assert(row@ == rows[i as int]);
        }
        let cols = split_char(row.as_str(), ';');
        proof {
            assert(cols@.len() == columns_of(rows[i as int]).len());
        }
        if cols.len() > 2 {
            proof {
                assert(row_malformed(rows[i as int]));
                assert(scan_rows(rows.skip(i as int), oui@) == Err::<
                    Option<Seq<char>>,
                    OuiError,
                >(OuiError::ParseError));
            }
            return Err(OuiError::ParseError);
        }
        proof {
            assert(!row_malformed(rows[i as int]));
            assert(cols@[0]@ == columns_of(rows[i as int])[0]);
            if cols@.len() >= 2 {
                assert(cols@[1]@ == columns_of(rows[i as int])[1]);
            }
        }
        if cols[0] == key {
            proof {
                assert(row_matches(rows[i as int], oui@));
            }
            let vendor = if cols.len() >= 2 && !cols[1].as_str().is_empty() {
                cols[1].clone()
            } else {
                String::from_str("Unknown vendor.")
            };
            proof {
                assert(vendor@ == vendor_of(rows[i as int]));
                assert(scan_rows(rows.skip(i as int), oui@) == Ok::<
                    Option<Seq<char>>,
                    OuiError,
                >(Some(vendor_of(rows[i as int]))));
            }
            return Ok(Some(vendor));
        }
        proof {
            assert(!row_matches(rows[i as int], oui@));
            assert(rows.skip(i as int).drop_first() =~= rows.skip(i + 1));
            assert(scan_rows(rows.skip(i as int), oui@) == scan_rows(rows.skip(i + 1), oui@));
        }
    }
    proof {
        assert(rows.skip(n as int) =~= Seq::<Seq<char>>::empty());
    }
    Ok(None)
}

/// Look up the OUI in a table that may have failed to open.
///
/// The caller hands in the table text where it could be read, or
/// nothing where it could not: an absent table fails with
/// `TableUnavailable`, a present one is searched as `lookup_oui` says.
pub fn lookup_vendor(table: Option<&str>, oui: &str) -> (r: Result<Option<String>, OuiError>)
    ensures
        table is None ==> r == Err::<Option<String>, OuiError>(OuiError::TableUnavailable),
        table matches Some(t) ==> res_view(r) == table_scan(t@, oui@),
{
    match table {
        None => Err(OuiError::TableUnavailable),
        Some(t) => lookup_oui(t, oui),
    }
}

/// The single line printed on standard output: the vendor name found,
/// or the no-match line.
pub fn outcome_line(outcome: &Option<String>) -> (r: String)
    ensures
        outcome matches Some(v) ==> r@ == v@,
        outcome is None ==> r@ == no_match_line(),
{
    match outcome {
        Some(v) => v.clone(),
        None => String::from_str("No match."),
    }
}

} // verus!
