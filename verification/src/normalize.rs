//! Normalizing a raw MAC address string into its canonical OUI: the
//! separator characters are removed, the rest is uppercased, and the
//! first six characters form the search key.

use vstd::prelude::*;

use crate::errors::OuiError;

verus! {

/// The number of characters of an OUI.
pub const OUI_LENGTH: usize = 6;

/// The least number of characters of a raw MAC address (no separators).
pub const MIN_MAC_LENGTH: usize = 12;

/// The greatest number of characters of a raw MAC address (with separators).
pub const MAX_MAC_LENGTH: usize = 17;

/// The separator characters a raw MAC address may carry: hyphen,
/// colon, dot and space.
pub open spec fn is_sep(c: char) -> bool {
    c == '-' || c == ':' || c == '.' || c == ' '
}

/// The ASCII uppercase of a character; anything but a lowercase ASCII
/// letter is left as it is.
pub open spec fn upper(c: char) -> char {
    if 'a' <= c && c <= 'z' {
        (((c as u32) - 32) as u8) as char
    } else {
        c
    }
}

/// The canonical form of a raw MAC address string: every separator
/// removed, every remaining character uppercased, in order.
pub open spec fn canon(s: Seq<char>) -> Seq<char>
    decreases s.len(),
{
    if s.len() == 0 {
        Seq::<char>::empty()
    } else if is_sep(s.last()) {
        canon(s.drop_last())
    } else {
        canon(s.drop_last()).push(upper(s.last()))
    }
}

/// The OUI of a raw MAC address string: the first six characters of
/// its canonical form.
pub open spec fn spec_oui(s: Seq<char>) -> Seq<char> {
    canon(s).take(OUI_LENGTH as int)
}

/// Whether the character count of a raw MAC address string is within
/// the accepted bounds.
pub open spec fn len_in_bounds(s: Seq<char>) -> bool {
    MIN_MAC_LENGTH <= s.len() && s.len() <= MAX_MAC_LENGTH
}

/// Whether `c` is one of the separator characters.
fn is_sep_char(c: char) -> (r: bool)
    ensures
        r == is_sep(c),
{
    c == '-' || c == ':' || c == '.' || c == ' '
}

/// The ASCII uppercase of a character.
fn upper_char(c: char) -> (r: char)
    ensures
        r == upper(c),
{
    if 'a' <= c && c <= 'z' {
        let u = c as u32;
        ((u - 32) as u8) as char
    } else {
        c
    }
}

/// Clean and validate a raw MAC address, extracting the OUI portion.
///
/// A raw string outside the accepted length bounds is rejected as
/// `InvalidLength`. Within them, the separators are removed, the rest
/// is uppercased, and the first six characters are returned. The
/// characters are not checked to be hexadecimal digits: any six
/// leading characters are accepted as the search key.
pub fn parse_mac(mac: &str) -> (r: Result<String, OuiError>)
    requires
        len_in_bounds(mac@) ==> canon(mac@).len() >= OUI_LENGTH,
    ensures
        len_in_bounds(mac@) ==> (r matches Ok(oui) && oui@ == spec_oui(mac@)),
        !len_in_bounds(mac@) ==> r == Err::<String, OuiError>(OuiError::InvalidLength),
{
    let n = mac.unicode_len();
    if n < MIN_MAC_LENGTH || n > MAX_MAC_LENGTH {
        return Err(OuiError::InvalidLength);
    }
    let mut cleaned: String = String::new();
    for i in 0..n
        invariant
            n == mac@.len(),
            cleaned@ == canon(mac@.take(i as int)),
    {
        let c = mac.get_char(i);
        proof {
            assert(mac@.take(i + 1).drop_last() =~= mac@.take(i as int));
            assert(mac@.take(i + 1).last() == mac@[i as int]);
        }
        if !is_sep_char(c) {
            cleaned.push(upper_char(c));
        }
    }
    proof {
        assert(mac@.take(n as int) =~= mac@);
    }
    let oui = cleaned.as_str().substring_char(0, OUI_LENGTH);
    proof {
        assert(oui@ =~= spec_oui(mac@));
    }
    Ok(String::from_str(oui))
}

/// A sequence already in canonical form: no separators, nothing left
/// to uppercase.
pub open spec fn is_canonical(s: Seq<char>) -> bool {
    forall|i: int|
        0 <= i < s.len() ==> !is_sep(#[trigger] s[i]) && upper(s[i]) == s[i]
}

/// Uppercasing a non-separator character yields a non-separator, and
/// uppercasing twice is the same as uppercasing once.
proof fn lemma_upper_props(c: char)
    ensures
        !is_sep(c) ==> !is_sep(upper(c)),
        upper(upper(c)) == upper(c),
{
}

/// The canonical form of any string is itself canonical.
proof fn lemma_canon_is_canonical(s: Seq<char>)
    ensures
        is_canonical(canon(s)),
    decreases s.len(),
{
    if s.len() != 0 {
        lemma_canon_is_canonical(s.drop_last());
        if !is_sep(s.last()) {
            lemma_upper_props(s.last());
        }
    }
}

/// Normalization leaves a canonical string as it is.
proof fn lemma_canon_fixes_canonical(s: Seq<char>)
    requires
        is_canonical(s),
    ensures
        canon(s) == s,
    decreases s.len(),
{
    if s.len() == 0 {
        assert(canon(s) =~= s);
    } else {
        assert(is_canonical(s.drop_last()));
        lemma_canon_fixes_canonical(s.drop_last());
        assert(canon(s) =~= s);
    }
}

/// Normalization is idempotent on the extracted OUI: for a raw MAC
/// address string within the accepted length bounds whose separator
/// removal leaves twelve characters, re-normalizing the extracted OUI
/// alone yields that OUI again.
pub proof fn lemma_oui_idempotent(s: Seq<char>)
    requires
        len_in_bounds(s),
        canon(s).len() == MIN_MAC_LENGTH,
    ensures
        spec_oui(spec_oui(s)) == spec_oui(s),
{
    lemma_canon_is_canonical(s);
    let o = spec_oui(s);
    assert(is_canonical(o)) by {
        assert(forall|i: int| 0 <= i < o.len() ==> o[i] == canon(s)[i]);
    }
    lemma_canon_fixes_canonical(o);
    assert(canon(o).take(OUI_LENGTH as int) =~= o);
}

} // verus!
