//! Small string utilities shared across the crate: character-level string
//! equality, pushing a character onto a `String`, and kebab-case to
//! snake_case conversion.

use vstd::prelude::*;

verus! {

/// Relies on `String::push`: appends the given character to the end of the
/// string.
pub assume_specification[ String::push ](s: &mut String, ch: char)
    ensures
        final (s)@ == old(s)@.push(ch),
;

/// Character-by-character string equality.
pub fn str_eq(a: &str, b: &str) -> (r: bool)
    ensures
        r == (a@ == b@),
{
    let alen = a.unicode_len();
    let blen = b.unicode_len();
    if alen != blen {
        return false;
    }
    let mut i: usize = 0;
    while i < alen
        invariant
            0 <= i <= alen,
            alen == a@.len(),
            alen == b@.len(),
            forall|j: int| 0 <= j < i ==> a@[j] == b@[j],
        decreases alen - i,
    {
        if a.get_char(i) != b.get_char(i) {
            return false;
        }
        i += 1;
    }
    proof {
        assert(a@ =~= b@);
    }
    true
}

/// The snake_case reading of a name: every `'-'` replaced by `'_'`.
pub open spec fn snake_case(s: Seq<char>) -> Seq<char> {
    s.map_values(|c: char| if c == '-' { '_' } else { c })
}

/// Converts a kebab-case name to snake_case.
pub fn to_snake_case(name: &str) -> (r: String)
    ensures
        r@ == snake_case(name@),
{
    let len = name.unicode_len();
    let mut out = String::new();
    let mut i: usize = 0;
    while i < len
        invariant
            0 <= i <= len,
            len == name@.len(),
            out@ =~= snake_case(name@).take(i as int),
        decreases len - i,
    {
        let c = name.get_char(i);
        if c == '-' {
            out.push('_');
        } else {
            out.push(c);
        }
        proof {
            assert(out@ =~= snake_case(name@).take(i + 1));
        }
        i += 1;
    }
    proof {
        assert(snake_case(name@).take(len as int) =~= snake_case(name@));
    }
    out
}

} // verus!
