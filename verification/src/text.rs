//! ASCII-lowercase helpers used for case-insensitive token matching and
//! for building texture paths from creature names.

use vstd::prelude::*;
use vstd::string::StrSliceExecFns;

verus! {

/// Relies on std's String::push: appends the given character to the end
/// of the string.
pub assume_specification[ String::push ](s: &mut String, c: char)
    ensures
        final(s)@ == old(s)@.push(c),
;

/// ASCII lowercase of one character: `'A'..='Z'` map to `'a'..='z'`,
/// everything else is unchanged.
pub open spec fn lower_char_spec(c: char) -> char {
    if 65 <= c as int && c as int <= 90 {
        (c as int + 32) as char
    } else {
        c
    }
}

/// ASCII lowercase of a whole character sequence.
pub open spec fn lower_spec(s: Seq<char>) -> Seq<char> {
    s.map_values(|c: char| lower_char_spec(c))
}

pub fn lower_char(c: char) -> (r: char)
    ensures
        r == lower_char_spec(c),
{
    let u = c as u32;
    if 65 <= u && u <= 90 {
        ((u + 32) as u8) as char
    } else {
        c
    }
}

/// Append the ASCII-lowercase form of `s` to `out`.
pub fn push_lowered(out: &mut String, s: &str)
    ensures
        final(out)@ == old(out)@ + lower_spec(s@),
{
    let n = s.unicode_len();
    let mut i: usize = 0;
    while i < n
        invariant
            n == s@.len(),
            i <= n,
            out@ == old(out)@ + lower_spec(s@.take(i as int)),
        decreases n - i,
    {
        let c = s.get_char(i);
        out.push(lower_char(c));
        proof {
            assert(lower_spec(s@.take(i + 1)) =~= lower_spec(s@.take(i as int)).push(
                lower_char_spec(s@[i as int]),
            ));
            assert(old(out)@ + lower_spec(s@.take(i + 1)) =~= (old(out)@ + lower_spec(
                s@.take(i as int),
            )).push(lower_char_spec(s@[i as int])));
        }
        i += 1;
    }
    proof {
        assert(s@.take(n as int) =~= s@);
    }
}

/// True exactly when the two strings read the same.
pub fn str_eq(a: &str, b: &str) -> (r: bool)
    ensures
        r == (a@ == b@),
{
    let n = a.unicode_len();
    let k = b.unicode_len();
    if n != k {
        return false;
    }
    let mut i: usize = 0;
    while i < n
        invariant
            n == a@.len(),
            n == b@.len(),
            i <= n,
            forall|j: int| 0 <= j < i ==> a@[j] == b@[j],
        decreases n - i,
    {
        if a.get_char(i) != b.get_char(i) {
            return false;
        }
        i += 1;
    }
    proof {
        assert(a@ =~= b@);
    }
    true
}

/// True exactly when `s`, lowered to ASCII lowercase, reads as `keyword`.
pub fn matches_keyword(s: &str, keyword: &str) -> (r: bool)
    ensures
        r == (lower_spec(s@) == keyword@),
{
    let n = s.unicode_len();
    let k = keyword.unicode_len();
    if n != k {
        proof {
            assert(lower_spec(s@).len() == s@.len());
        }
        return false;
    }
    let mut i: usize = 0;
    while i < n
        invariant
            n == s@.len(),
            n == keyword@.len(),
            i <= n,
            forall|j: int| 0 <= j < i ==> lower_char_spec(s@[j]) == keyword@[j],
        decreases n - i,
    {
        let c = s.get_char(i);
        let d = keyword.get_char(i);
        if lower_char(c) != d {
            proof {
                assert(lower_spec(s@)[i as int] != keyword@[i as int]);
            }
            return false;
        }
        i += 1;
    }
    proof {
        assert(lower_spec(s@) =~= keyword@);
    }
    true
}

} // verus!
