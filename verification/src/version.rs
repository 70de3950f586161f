//! Semantic versions: parsing with normalization, bump-level arithmetic,
//! and textual rendering.
//!
//! A version string is split on dots; each of the first three components is
//! read as a decimal number, with a failed numeric parse (empty, non-digit,
//! or out of range) tolerated as zero; missing trailing components are padded
//! with zero, so every string normalizes to exactly three components.

use vstd::prelude::*;

verus! {

/// An ordered triple of non-negative integers, rendered as `"major.minor.patch"`.
#[derive(Clone, Copy, PartialEq, Eq, Structural, Debug)]
pub struct SemanticVersion {
    pub major: u32,
    pub minor: u32,
    pub patch: u32,
}

/// Which component of a semantic version to increment.
#[derive(Clone, Copy, PartialEq, Eq, Structural, Debug)]
pub enum BumpLevel {
    /// Increment the major component.
    Macro,
    /// Increment the minor component.
    Meso,
    /// Increment the patch component.
    Micro,
}

// ---------------------------------------------------------------------------
// Decimal digits
// ---------------------------------------------------------------------------

pub open spec fn is_digit(c: char) -> bool {
    '0' <= c && c <= '9'
}

pub open spec fn digit_val(c: char) -> int {
    c as int - '0' as int
}

pub open spec fn all_digits(s: Seq<char>) -> bool {
    forall|i: int| 0 <= i < s.len() ==> is_digit(#[trigger] s[i])
}

/// The number denoted by a sequence of decimal digits, most significant first.
pub open spec fn digits_val(s: Seq<char>) -> int
    decreases s.len(),
{
    if s.len() == 0 {
        0
    } else {
        digits_val(s.drop_last()) * 10 + digit_val(s.last())
    }
}

/// The numeric reading of one dot-separated component: a non-empty all-digit
/// string whose value fits the component type reads as that value; anything
/// else is tolerated as zero.
pub open spec fn component_val(s: Seq<char>) -> u32 {
    if s.len() > 0 && all_digits(s) && digits_val(s) <= u32::MAX {
        digits_val(s) as u32
    } else {
        0
    }
}

proof fn lemma_digits_val_nonneg(s: Seq<char>)
    requires
        all_digits(s),
    ensures
        digits_val(s) >= 0,
    decreases s.len(),
{
    if s.len() > 0 {
        assert(all_digits(s.drop_last())) by {
            assert(forall|i: int|
                0 <= i < s.drop_last().len() ==> is_digit(#[trigger] s.drop_last()[i]) == is_digit(
                    s[i],
                ));
        }
        lemma_digits_val_nonneg(s.drop_last());
    }
}

/// Appending further digits never shrinks the denoted number.
proof fn lemma_digits_val_monotonic(s: Seq<char>, i: int, j: int)
    requires
        all_digits(s),
        0 <= i <= j <= s.len(),
    ensures
        digits_val(s.take(i)) <= digits_val(s.take(j)),
    decreases j - i,
{
    if i < j {
        lemma_digits_val_monotonic(s, i, j - 1);
        let t = s.take(j);
        assert(t.drop_last() =~= s.take(j - 1));
        assert(all_digits(s.take(j - 1))) by {
            assert(forall|k: int|
                0 <= k < j - 1 ==> is_digit(#[trigger] s.take(j - 1)[k]) == is_digit(s[k]));
        }
        lemma_digits_val_nonneg(s.take(j - 1));
        assert(digits_val(t) == digits_val(s.take(j - 1)) * 10 + digit_val(s[j - 1]));
        assert(digits_val(s.take(j - 1)) * 10 >= digits_val(s.take(j - 1)));
        assert(digit_val(s[j - 1]) >= 0);
    }
}

// ---------------------------------------------------------------------------
// Splitting on dots
// ---------------------------------------------------------------------------

/// Index of the first `'.'` in `s`, or `s.len()` if there is none.
pub open spec fn first_dot(s: Seq<char>) -> int
    decreases s.len(),
{
    if s.len() == 0 {
        0
    } else if s[0] == '.' {
        0
    } else {
        1 + first_dot(s.drop_first())
    }
}

/// The characters of the first dot-separated component.
pub open spec fn head_component(s: Seq<char>) -> Seq<char> {
    s.take(first_dot(s))
}

/// What follows the first dot, or `None` if there is no dot.
pub open spec fn tail_components(s: Seq<char>) -> Option<Seq<char>> {
    if first_dot(s) == s.len() {
        None
    } else {
        Some(s.skip(first_dot(s) + 1))
    }
}

/// The normalized reading of a version string: the numeric values of its
/// first three dot-separated components, with missing components read as
/// zero. A string of one component `a` reads as `(a, 0, 0)`; of two, as
/// `(a, b, 0)`; components past the third are ignored.
pub open spec fn normalized(s: Seq<char>) -> SemanticVersion {
    let c0 = component_val(head_component(s));
    match tail_components(s) {
        None => SemanticVersion { major: c0, minor: 0, patch: 0 },
        Some(r1) => {
            let c1 = component_val(head_component(r1));
            match tail_components(r1) {
                None => SemanticVersion { major: c0, minor: c1, patch: 0 },
                Some(r2) => SemanticVersion {
                    major: c0,
                    minor: c1,
                    patch: component_val(head_component(r2)),
                },
            }
        },
    }
}

/// A version string with a single numeric component normalizes by
/// zero-filling the two missing components, and one with two components by
/// zero-filling the third; a three-component string keeps all three values.
/// Together these say that normalization pads every version string of one to
/// three components to exactly three.
pub proof fn lemma_normalization_pads(s: Seq<char>)
    ensures
        match tail_components(s) {
            None => normalized(s) == (SemanticVersion {
                major: component_val(head_component(s)),
                minor: 0,
                patch: 0,
            }),
            Some(r1) => match tail_components(r1) {
                None => normalized(s) == (SemanticVersion {
                    major: component_val(head_component(s)),
                    minor: component_val(head_component(r1)),
                    patch: 0,
                }),
                Some(r2) => normalized(s) == (SemanticVersion {
                    major: component_val(head_component(s)),
                    minor: component_val(head_component(r1)),
                    patch: component_val(head_component(r2)),
                }),
            },
        },
{
}

// ---------------------------------------------------------------------------
// Executable parsing
// ---------------------------------------------------------------------------

/// Finds the first `'.'` at or after `from`, or the string's length if none.
fn find_dot(s: &str, from: usize, len: usize) -> (r: usize)
    requires
        len == s@.len(),
        from <= len,
    ensures
        from <= r <= len,
        r - from == first_dot(s@.skip(from as int)),
{
    let mut i = from;
    while i < len
        invariant
            from <= i <= len,
            len == s@.len(),
            forall|j: int| from <= j < i ==> s@[j] != '.',
        decreases len - i,
    {
        if s.get_char(i) == '.' {
            proof {
                lemma_first_dot_at(s@.skip(from as int), i - from);
            }
            return i;
        }
        i += 1;
    }
    proof {
        lemma_first_dot_at(s@.skip(from as int), len - from);
    }
    len
}

/// If no dot appears before position `k` of `s`, and `k` is either the end
/// or a dot, then `k` is the first dot position.
proof fn lemma_first_dot_at(s: Seq<char>, k: int)
    requires
        0 <= k <= s.len(),
        forall|j: int| 0 <= j < k ==> s[j] != '.',
        k < s.len() ==> s[k] == '.',
    ensures
        first_dot(s) == k,
    decreases s.len(),
{
    if s.len() > 0 && s[0] != '.' {
        assert(forall|j: int|
            0 <= j < k - 1 ==> #[trigger] s.drop_first()[j] == s[j + 1]);
        lemma_first_dot_at(s.drop_first(), k - 1);
    }
}

/// Reads the decimal value of `s[from..to]`, tolerating a failed parse
/// (empty, non-digit, or a value out of range) as zero.
fn parse_component(s: &str, from: usize, to: usize) -> (r: u32)
    requires
        from <= to <= s@.len(),
    ensures
        r == component_val(s@.subrange(from as int, to as int)),
{
    let ghost seg = s@.subrange(from as int, to as int);
    if from == to {
        return 0;
    }
    let mut acc: u32 = 0;
    let mut i = from;
    while i < to
        invariant
            from <= i <= to <= s@.len(),
            all_digits(seg.take(i - from)),
            acc == digits_val(seg.take(i - from)),
            seg == s@.subrange(from as int, to as int),
        decreases to - i,
    {
        let c = s.get_char(i);
        proof {
            assert(seg[i - from] == c);
        }
        if !('0' <= c && c <= '9') {
            return 0;
        }
        let d: u32 = (c as u32) - ('0' as u32);
        proof {
            assert(d == digit_val(c));
            assert(seg.take(i + 1 - from).drop_last() =~= seg.take(i - from));
        }
        if acc > (u32::MAX - d) / 10 {
            // The running value would exceed the component range; further
            // digits can only keep it out of range.
            proof {
                assert(digits_val(seg.take(i + 1 - from)) == acc * 10 + d);
                assert(acc * 10 + d > u32::MAX) by (nonlinear_arith)
                    requires
                        acc > (u32::MAX - d) / 10,
                        d <= 9,
                ;
                assert(all_digits(seg.take(i + 1 - from)));
                if all_digits(seg) {
                    lemma_digits_val_monotonic(seg, i + 1 - from, seg.len() as int);
                    assert(seg.take(seg.len() as int) =~= seg);
                }
            }
            return 0;
        }
        proof {
            assert(acc * 10 + d <= u32::MAX) by (nonlinear_arith)
                requires
                    acc <= (u32::MAX - d) / 10,
                    d <= 9,
            ;
        }
        acc = acc * 10 + d;
        i += 1;
    }
    proof {
        assert(seg.take(to - from) =~= seg);
    }
    acc
}

/// Parses a version string into its normalized three-component form.
pub fn parse_version(s: &str) -> (v: SemanticVersion)
    ensures
        v == normalized(s@),
{
    let len = s.unicode_len();
    let d0 = find_dot(s, 0, len);
    proof {
        assert(s@.skip(0) =~= s@);
        assert(s@.subrange(0, d0 as int) =~= head_component(s@));
    }
    let major = parse_component(s, 0, d0);
    if d0 == len {
        return SemanticVersion { major, minor: 0, patch: 0 };
    }
    let ghost r1 = s@.skip(d0 + 1);
    let d1 = find_dot(s, d0 + 1, len);
    proof {
        assert(s@.subrange(d0 + 1, d1 as int) =~= head_component(r1));
    }
    let minor = parse_component(s, d0 + 1, d1);
    if d1 == len {
        proof {
            assert(tail_components(r1) is None);
        }
        return SemanticVersion { major, minor, patch: 0 };
    }
    let ghost r2 = r1.skip(first_dot(r1) + 1);
    let d2 = find_dot(s, d1 + 1, len);
    proof {
        assert(r2 =~= s@.skip(d1 + 1));
        assert(s@.subrange(d1 + 1, d2 as int) =~= head_component(r2));
    }
    let patch = parse_component(s, d1 + 1, d2);
    SemanticVersion { major, minor, patch }
}

// ---------------------------------------------------------------------------
// Bumping
// ---------------------------------------------------------------------------

/// Whether bumping `v` at `level` stays within the component range.
pub open spec fn bump_fits(v: SemanticVersion, level: BumpLevel) -> bool {
    match level {
        BumpLevel::Macro => v.major < u32::MAX,
        BumpLevel::Meso => v.minor < u32::MAX,
        BumpLevel::Micro => v.patch < u32::MAX,
    }
}

/// The bumped version: the chosen component is incremented, every
/// lower-order component is zeroed, and every higher-order component is left
/// untouched.
pub open spec fn spec_bump(v: SemanticVersion, level: BumpLevel) -> SemanticVersion
    recommends
        bump_fits(v, level),
{
    match level {
        BumpLevel::Macro => SemanticVersion {
            major: (v.major + 1) as u32,
            minor: 0,
            patch: 0,
        },
        BumpLevel::Meso => SemanticVersion {
            major: v.major,
            minor: (v.minor + 1) as u32,
            patch: 0,
        },
        BumpLevel::Micro => SemanticVersion {
            major: v.major,
            minor: v.minor,
            patch: (v.patch + 1) as u32,
        },
    }
}

/// Bumps `v` at `level`, or reports that the incremented component would
/// leave the component range.
pub fn try_bump(v: &SemanticVersion, level: BumpLevel) -> (r: Option<SemanticVersion>)
    ensures
        bump_fits(*v, level) ==> r == Some(spec_bump(*v, level)),
        !bump_fits(*v, level) ==> r is None,
{
    match level {
        BumpLevel::Macro => {
            if v.major < u32::MAX {
                Some(SemanticVersion { major: v.major + 1, minor: 0, patch: 0 })
            } else {
                None
            }
        },
        BumpLevel::Meso => {
            if v.minor < u32::MAX {
                Some(SemanticVersion { major: v.major, minor: v.minor + 1, patch: 0 })
            } else {
                None
            }
        },
        BumpLevel::Micro => {
            if v.patch < u32::MAX {
                Some(SemanticVersion { major: v.major, minor: v.minor, patch: v.patch + 1 })
            } else {
                None
            }
        },
    }
}

/// Reads a bump level from its name: `macro`, `meso` or `micro`; any other
/// name is no level.
pub fn parse_bump_level(s: &str) -> (r: Option<BumpLevel>)
    ensures
        s@ == "macro"@ ==> r == Some(BumpLevel::Macro),
        s@ == "meso"@ ==> r == Some(BumpLevel::Meso),
        s@ == "micro"@ ==> r == Some(BumpLevel::Micro),
        s@ != "macro"@ && s@ != "meso"@ && s@ != "micro"@ ==> r is None,
{
    proof {
        reveal_strlit("macro");
        reveal_strlit("meso");
        reveal_strlit("micro");
        assert("macro"@.len() == 5 && "meso"@.len() == 4 && "micro"@.len() == 5);
        assert("macro"@[1] == 'a' && "micro"@[1] == 'i');
    }
    if crate::strutil::str_eq(s, "macro") {
        Some(BumpLevel::Macro)
    } else if crate::strutil::str_eq(s, "meso") {
        Some(BumpLevel::Meso)
    } else if crate::strutil::str_eq(s, "micro") {
        Some(BumpLevel::Micro)
    } else {
        None
    }
}

// ---------------------------------------------------------------------------
// Rendering
// ---------------------------------------------------------------------------

/// The decimal digit character for a value below ten.
pub open spec fn digit_char(d: int) -> char {
    if d == 0 {
        '0'
    } else if d == 1 {
        '1'
    } else if d == 2 {
        '2'
    } else if d == 3 {
        '3'
    } else if d == 4 {
        '4'
    } else if d == 5 {
        '5'
    } else if d == 6 {
        '6'
    } else if d == 7 {
        '7'
    } else if d == 8 {
        '8'
    } else {
        '9'
    }
}

/// The decimal rendering of a non-negative number, most significant digit
/// first, without leading zeros (zero itself renders as `"0"`).
pub open spec fn dec_repr(n: int) -> Seq<char>
    decreases n,
{
    if n < 10 {
        seq![digit_char(n)]
    } else {
        dec_repr(n / 10).push(digit_char(n % 10))
    }
}

/// The textual rendering `"major.minor.patch"` of a version.
pub open spec fn version_repr(v: SemanticVersion) -> Seq<char> {
    dec_repr(v.major as int) + seq!['.'] + dec_repr(v.minor as int) + seq!['.'] + dec_repr(
        v.patch as int,
    )
}

fn digit_char_of(d: u32) -> (c: char)
    requires
        d < 10,
    ensures
        c == digit_char(d as int),
{
    match d {
        0 => '0',
        1 => '1',
        2 => '2',
        3 => '3',
        4 => '4',
        5 => '5',
        6 => '6',
        7 => '7',
        8 => '8',
        _ => '9',
    }
}

/// Appends the decimal rendering of `n` to `out`.
fn push_decimal(out: &mut String, n: u32)
    ensures
        final (out)@ == old(out)@ + dec_repr(n as int),
    decreases n,
{
    if n >= 10 {
        push_decimal(out, n / 10);
    }
    out.push(digit_char_of(n % 10));
    proof {
        if n < 10 {
            assert(old(out)@ + dec_repr(n as int) =~= old(out)@.push(digit_char(n as int)));
        } else {
            assert(old(out)@ + dec_repr(n as int) =~= (old(out)@ + dec_repr(n as int / 10)).push(
                digit_char(n as int % 10),
            ));
        }
    }
}

/// Renders a version as `"major.minor.patch"`.
pub fn version_string(v: &SemanticVersion) -> (r: String)
    ensures
        r@ == version_repr(*v),
{
    let mut out = String::new();
    push_decimal(&mut out, v.major);
    out.push('.');
    push_decimal(&mut out, v.minor);
    out.push('.');
    push_decimal(&mut out, v.patch);
    proof {
        assert(out@ =~= version_repr(*v));
    }
    out
}

} // verus!
