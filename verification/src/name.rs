//! Sanitization of user-chosen lock names into filesystem-safe tokens.
//!
//! Sanitization works per encoded (UTF-8) character unit: an allowed character
//! is kept in place, and a disallowed character is replaced by one underscore
//! for each of its UTF-8 bytes. A single non-ASCII character therefore becomes
//! several underscores, proportional to its encoded width — an accepted,
//! documented quirk of the format, not one to silently fix.

use vstd::prelude::*;
use vstd::string::StrSliceExecFns;

verus! {

/// A character is kept by sanitization exactly when it is an ASCII letter,
/// an ASCII digit, a hyphen or an underscore.
pub open spec fn is_allowed_char(c: char) -> bool {
    let u = c as u32;
    (0x30 <= u && u <= 0x39)  // '0'..='9'
    || (0x41 <= u && u <= 0x5A)  // 'A'..='Z'
    || (0x61 <= u && u <= 0x7A)  // 'a'..='z'
    || u == 0x2D  // '-'
    || u == 0x5F  // '_'
}

/// How many bytes the character occupies in UTF-8.
pub open spec fn char_utf8_len(c: char) -> nat {
    let u = c as u32;
    if u < 0x80 {
        1
    } else if u < 0x800 {
        2
    } else if u < 0x10000 {
        3
    } else {
        4
    }
}

/// What sanitization emits for one character: the character itself when it is
/// allowed, else one underscore per UTF-8 byte of the character.
pub open spec fn sanitize_units(c: char) -> Seq<char> {
    if is_allowed_char(c) {
        seq![c]
    } else {
        Seq::new(char_utf8_len(c), |i: int| '_')
    }
}

/// What sanitization does to a whole string: the concatenation of what it
/// emits for each character in turn.
pub open spec fn spec_sanitize(s: Seq<char>) -> Seq<char>
    decreases s.len(),
{
    if s.len() == 0 {
        Seq::empty()
    } else {
        spec_sanitize(s.drop_last()) + sanitize_units(s.last())
    }
}

/// The length of the string in UTF-8 bytes: the unit in which sanitization is
/// length-preserving.
pub open spec fn spec_utf8_len(s: Seq<char>) -> nat
    decreases s.len(),
{
    if s.len() == 0 {
        0
    } else {
        spec_utf8_len(s.drop_last()) + char_utf8_len(s.last())
    }
}

fn is_allowed(c: char) -> (r: bool)
    ensures
        r == is_allowed_char(c),
{
    let u = c as u32;
    (0x30 <= u && u <= 0x39) || (0x41 <= u && u <= 0x5A) || (0x61 <= u && u <= 0x7A) || u == 0x2D
        || u == 0x5F
}

fn utf8_len(c: char) -> (r: usize)
    ensures
        r == char_utf8_len(c),
{
    let u = c as u32;
    if u < 0x80 {
        1
    } else if u < 0x800 {
        2
    } else if u < 0x10000 {
        3
    } else {
        4
    }
}

/// Relies on std's String::push: appends the character at the end of the string.
#[verifier::external_body]
fn push_char(s: &mut String, c: char)
    ensures
        final(s)@ == old(s)@.push(c),
{
    s.push(c);
}

/// Map an arbitrary string to a filesystem-safe token: ASCII alphanumerics,
/// hyphens and underscores are kept, every other character becomes one
/// underscore per UTF-8 byte. No collapsing of runs; the output is as long,
/// in character units, as the input is in UTF-8 bytes.
pub fn sanitize(s: &str) -> (r: String)
    ensures
        r@ == spec_sanitize(s@),
        r@.len() == spec_utf8_len(s@),
{
    let n: usize = s.unicode_len();
    let mut out = String::new();
    for i in 0..n
        invariant
            n == s@.len(),
            out@ == spec_sanitize(s@.take(i as int)),
    {
        let c = s.get_char(i);
        let ghost prefix = out@;
        if is_allowed(c) {
            push_char(&mut out, c);
            proof {
                assert(out@ =~= prefix + sanitize_units(c));
            }
        } else {
            let m = utf8_len(c);
            let mut k: usize = 0;
            while k < m
                invariant
                    k <= m,
                    out@ == prefix + Seq::new(k as nat, |j: int| '_'),
                decreases m - k,
            {
                let ghost before = out@;
                push_char(&mut out, '_');
                k = k + 1;
                proof {
                    assert(out@ =~= prefix + Seq::new(k as nat, |j: int| '_'));
                }
            }
            proof {
                assert(out@ =~= prefix + sanitize_units(c));
            }
        }
        proof {
            assert(s@.take(i + 1).drop_last() =~= s@.take(i as int));
            assert(s@.take(i + 1).last() == s@[i as int]);
        }
    }
    proof {
        assert(s@.take(n as int) =~= s@);
        lemma_sanitize_unit_length(s@);
    }
    out
}

/// Every character sanitization emits is itself allowed: kept characters are
/// allowed by definition, and the underscore is in the allowed set.
pub proof fn lemma_sanitize_all_allowed(s: Seq<char>)
    ensures
        forall|i: int| 0 <= i < spec_sanitize(s).len() ==> is_allowed_char(spec_sanitize(s)[i]),
    decreases s.len(),
{
    if s.len() > 0 {
        lemma_sanitize_all_allowed(s.drop_last());
        let pre = spec_sanitize(s.drop_last());
        assert forall|i: int| 0 <= i < spec_sanitize(s).len() implies is_allowed_char(
            spec_sanitize(s)[i],
        ) by {
            if pre.len() <= i {
                assert(spec_sanitize(s)[i] == sanitize_units(s.last())[i - pre.len()]);
            }
        }
    }
}

/// Sanitization leaves a string of allowed characters unchanged.
pub proof fn lemma_sanitize_fixes_allowed(s: Seq<char>)
    requires
        forall|i: int| 0 <= i < s.len() ==> is_allowed_char(s[i]),
    ensures
        spec_sanitize(s) == s,
    decreases s.len(),
{
    if s.len() == 0 {
        assert(spec_sanitize(s) =~= s);
    } else {
        lemma_sanitize_fixes_allowed(s.drop_last());
        assert(spec_sanitize(s) =~= s.drop_last().push(s.last()));
        assert(s.drop_last().push(s.last()) =~= s);
    }
}

/// Sanitizing an already-sanitized string changes nothing: every character a
/// first pass emits is itself allowed, so a second pass keeps them all.
pub proof fn lemma_sanitize_idempotent(s: Seq<char>)
    ensures
        spec_sanitize(spec_sanitize(s)) == spec_sanitize(s),
{
    lemma_sanitize_all_allowed(s);
    lemma_sanitize_fixes_allowed(spec_sanitize(s));
}

/// Sanitization is length-preserving per source character unit: the output
/// holds exactly one character for each UTF-8 byte of the input.
pub proof fn lemma_sanitize_unit_length(s: Seq<char>)
    ensures
        spec_sanitize(s).len() == spec_utf8_len(s),
    decreases s.len(),
{
    if s.len() > 0 {
        lemma_sanitize_unit_length(s.drop_last());
    }
}

/// The characters with the Unicode White_Space property, the set that string
/// trimming removes at either end.
pub open spec fn is_space_char(c: char) -> bool {
    let u = c as u32;
    u == 0x09 || u == 0x0A || u == 0x0B || u == 0x0C || u == 0x0D || u == 0x20 || u == 0x85
        || u == 0xA0 || u == 0x1680 || (0x2000 <= u && u <= 0x200A) || u == 0x2028 || u == 0x2029
        || u == 0x202F || u == 0x205F || u == 0x3000
}

/// A string trims to nothing exactly when every character is whitespace.
pub open spec fn spec_trimmed_empty(s: Seq<char>) -> bool {
    forall|i: int| 0 <= i < s.len() ==> is_space_char(s[i])
}

fn is_space(c: char) -> (r: bool)
    ensures
        r == is_space_char(c),
{
    let u = c as u32;
    u == 0x09 || u == 0x0A || u == 0x0B || u == 0x0C || u == 0x0D || u == 0x20 || u == 0x85
        || u == 0xA0 || u == 0x1680 || (0x2000 <= u && u <= 0x200A) || u == 0x2028 || u == 0x2029
        || u == 0x202F || u == 0x205F || u == 0x3000
}

/// Whether the string is empty once leading and trailing whitespace is
/// trimmed, that is, whether it holds no non-whitespace character at all.
pub fn trimmed_empty(s: &str) -> (r: bool)
    ensures
        r == spec_trimmed_empty(s@),
{
    let n: usize = s.unicode_len();
    for i in 0..n
        invariant
            n == s@.len(),
            forall|j: int| 0 <= j < i ==> is_space_char(s@[j]),
    {
        if !is_space(s.get_char(i)) {
            return false;
        }
    }
    true
}

} // verus!
