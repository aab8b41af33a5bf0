//! Hex color strings of the form `#RRGGBB`.
use crate::text::{
    eq_ignore_ascii_case, eq_ignore_case_spec, is_space_spec, is_tight, lemma_tight_trimmed,
    lemma_trimmed_idempotent, lemma_trimmed_is_tight, trim, trimmed,
};
use vstd::prelude::*;
use vstd::string::StrSliceExecFns;
use vstd::string::StringExecFns;

verus! {

/// The color that stands in for a malformed stored value.
pub open spec fn fallback_white() -> Seq<char> {
    seq!['#', 'f', 'f', 'f', 'f', 'f', 'f']
}

/// `s` with a leading `#`, added when it is missing.
pub open spec fn with_hash(s: Seq<char>) -> Seq<char> {
    if s.len() > 0 && s[0] == '#' {
        s
    } else {
        seq!['#'] + s
    }
}

/// A stored color as it is shown and kept: trimmed, with a leading `#`, and
/// white when it is not seven characters long.
pub open spec fn normalize_hex_spec(s: Seq<char>) -> Seq<char> {
    let c = with_hash(trimmed(s));
    if c.len() == 7 {
        c
    } else {
        fallback_white()
    }
}

pub open spec fn is_hex_digit(c: char) -> bool {
    ('0' <= c && c <= '9') || ('a' <= c && c <= 'f') || ('A' <= c && c <= 'F')
}

/// `#` followed by six hex digits.
pub open spec fn is_hex_color(s: Seq<char>) -> bool {
    s.len() == 7 && s[0] == '#' && forall|k: int| 1 <= k < 7 ==> is_hex_digit(#[trigger] s[k])
}

/// A color typed by the user: trimmed and given a leading `#`, accepted only
/// as `#RRGGBB`.
pub open spec fn sanitize_hex_spec(s: Seq<char>) -> Option<Seq<char>> {
    let v = with_hash(trimmed(s));
    if is_hex_color(v) {
        Some(v)
    } else {
        None
    }
}

/// Two typed colors name the same valid color, up to case.
pub open spec fn hex_equal_spec(a: Seq<char>, b: Seq<char>) -> bool {
    match (sanitize_hex_spec(a), sanitize_hex_spec(b)) {
        (Some(x), Some(y)) => eq_ignore_case_spec(x, y),
        _ => false,
    }
}

/// What an optional color field holds: nothing when blank, the color when
/// valid, an error otherwise.
pub open spec fn color_field_spec(s: Seq<char>) -> Result<Option<Seq<char>>, ()> {
    if trimmed(s).len() == 0 {
        Ok(None)
    } else {
        match sanitize_hex_spec(s) {
            Some(v) => Ok(Some(v)),
            None => Err(()),
        }
    }
}

/// The error text for a color that is not `#RRGGBB`.
pub open spec fn color_format_error() -> Seq<char> {
    "Colors must use #RRGGBB format"@
}

fn add_hash(t: &str) -> (r: String)
    ensures
        r@ == with_hash(t@),
{
    if t.unicode_len() > 0 && t.get_char(0) == '#' {
        String::from_str(t)
    } else {
        let mut r = String::from_str("#");
        proof {
            reveal_strlit("#");
        }
        r.append(t);
        r
    }
}

/// Trims `value`, adds a missing `#`, and falls back to white unless the
/// result is seven characters long.
pub fn normalize_hex(value: &str) -> (r: String)
    ensures
        r@ == normalize_hex_spec(value@),
{
    let cleaned = add_hash(trim(value));
    if cleaned.as_str().unicode_len() != 7 {
        let w = String::from_str("#ffffff");
        proof {
            reveal_strlit("#ffffff");
        }
        assert(w@ =~= fallback_white());
        return w;
    }
    cleaned
}

/// Normalizing a normalized color changes nothing.
pub proof fn lemma_normalize_hex_idempotent(s: Seq<char>)
    ensures
        normalize_hex_spec(normalize_hex_spec(s)) == normalize_hex_spec(s),
{
    let y = normalize_hex_spec(s);
    lemma_trimmed_is_tight(s);
    let t = trimmed(s);
    if with_hash(t).len() == 7 {
        assert(y == with_hash(t));
        if !(t.len() > 0 && t[0] == '#') {
            assert(y.last() == t.last());
        }
        assert(!is_space_spec(y[0]));
        assert(is_tight(y));
    } else {
        assert(y == fallback_white());
        assert(is_tight(y));
    }
    lemma_tight_trimmed(y);
    assert(with_hash(y) == y);
}

/// Checks that a typed color is `#RRGGBB` after trimming and adding a
/// missing `#`.
pub fn sanitize_hex_color_input(input: &str) -> (r: Option<String>)
    ensures
        match sanitize_hex_spec(input@) {
            Some(v) => r.is_some() && r.unwrap()@ == v,
            None => r.is_none(),
        },
{
    let value = add_hash(trim(input));
    let v = value.as_str();
    if v.unicode_len() != 7 {
        return None;
    }
    let mut k: usize = 1;
    while k < 7
        invariant
            1 <= k <= 7,
            v@ == value@,
            value@ == with_hash(trimmed(input@)),
            v@.len() == 7,
            v@[0] == '#',
            forall|j: int| 1 <= j < k ==> is_hex_digit(#[trigger] v@[j]),
        decreases 7 - k,
    {
        let c = v.get_char(k);
        if !(('0' <= c && c <= '9') || ('a' <= c && c <= 'f') || ('A' <= c && c <= 'F')) {
            assert(!is_hex_digit(value@[k as int]));
            return None;
        }
        k = k + 1;
    }
    Some(value)
}

/// Whether two typed colors are both valid and equal up to case.
pub fn hex_strings_equal(a: &str, b: &str) -> (r: bool)
    ensures
        r == hex_equal_spec(a@, b@),
{
    match (sanitize_hex_color_input(a), sanitize_hex_color_input(b)) {
        (Some(left), Some(right)) => eq_ignore_ascii_case(left.as_str(), right.as_str()),
        _ => false,
    }
}

/// Reads an optional color field: blank gives `Ok(None)`, a valid color
/// `Ok(Some(..))`, anything else the format error.
pub fn parse_color_field(value: &str) -> (r: Result<Option<String>, String>)
    ensures
        match color_field_spec(value@) {
            Ok(None) => r == Ok::<Option<String>, String>(None),
            Ok(Some(v)) => r.is_ok() && r.unwrap().is_some() && r.unwrap().unwrap()@ == v,
            Err(_) => r.is_err() && r->Err_0@ == color_format_error(),
        },
{
    let trimmed_value = trim(value);
    if trimmed_value.unicode_len() == 0 {
        return Ok(None);
    }
    proof {
        lemma_trimmed_idempotent(value@);
    }
    match sanitize_hex_color_input(trimmed_value) {
        Some(v) => Ok(Some(v)),
        None => {
            let e = String::from_str("Colors must use #RRGGBB format");
            proof {
                reveal_strlit("Colors must use #RRGGBB format");
            }
            Err(e)
        },
    }
}

/// Reads a color field that must be filled in; `label` names the field in
/// the error for a blank one.
pub fn require_color_field(value: &str, label: &str) -> (r: Result<String, String>)
    ensures
        match color_field_spec(value@) {
            Ok(Some(v)) => r.is_ok() && r.unwrap()@ == v,
            Ok(None) => r.is_err() && r->Err_0@ == label@
                + " color is required when creating a custom theme"@,
            Err(_) => r.is_err() && r->Err_0@ == color_format_error(),
        },
{
    match parse_color_field(value) {
        Ok(Some(v)) => Ok(v),
        Ok(None) => {
            let mut e = String::from_str(label);
            e.append(" color is required when creating a custom theme");
            Err(e)
        },
        Err(e) => Err(e),
    }
}

} // verus!
