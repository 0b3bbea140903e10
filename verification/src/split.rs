//! Splitting text on a delimiter character, the one string operation
//! both the normalizer's callers and the table scanner share.

use vstd::prelude::*;

verus! {

/// Relies on String::push: appends the given character to the end of
/// the string.
pub assume_specification[ String::push ](s: &mut String, ch: char)
    ensures
        final(s)@ == old(s)@.push(ch),
;

/// The segments of `s` between occurrences of the delimiter `d`.
/// Splitting never yields an empty result: a text without the
/// delimiter is one segment, and each delimiter ends the segment
/// before it.
pub open spec fn split_on(s: Seq<char>, d: char) -> Seq<Seq<char>>
    decreases s.len(),
{
    if s.len() == 0 {
        seq![Seq::<char>::empty()]
    } else if s.last() == d {
        split_on(s.drop_last(), d).push(Seq::<char>::empty())
    } else {
        let p = split_on(s.drop_last(), d);
        p.update(p.len() - 1, p.last().push(s.last()))
    }
}

/// Split `s` into the segments between occurrences of `d`.
pub fn split_char(s: &str, d: char) -> (parts: Vec<String>)
    ensures
        parts@.map_values(|p: String| p@) == split_on(s@, d),
        parts@.len() >= 1,
{
    let n = s.unicode_len();
    let mut parts: Vec<String> = Vec::new();
    let mut cur: String = String::new();
    for i in 0..n
        invariant
            n == s@.len(),
            parts@.map_values(|p: String| p@).push(cur@) == split_on(s@.take(i as int), d),
    {
        let c = s.get_char(i);
        proof {
            assert(s@.take(i + 1).drop_last() =~= s@.take(i as int));
            assert(s@.take(i + 1).last() == s@[i as int]);
        }
        if c == d {
            let done = cur;
            cur = String::new();
            parts.push(done);
            proof {
                assert(parts@.map_values(|p: String| p@).push(cur@) =~= split_on(
                    s@.take(i + 1),
                    d,
                ));
            }
        } else {
            cur.push(c);
            proof {
                let p = split_on(s@.take(i as int), d);
                assert(p.update(p.len() - 1, p.last().push(c)) =~= parts@.map_values(
                    |q: String| q@,
                ).push(cur@));
            }
        }
    }
    proof {
        assert(s@.take(n as int) =~= s@);
    }
    parts.push(cur);
    proof {
        assert(parts@.map_values(|p: String| p@) =~= split_on(s@, d));
    }
    parts
}

} // verus!
