//! Rewriting the `stroke-width="N"` attribute of an icon's SVG text.
//!
//! A stroke width is held as a whole number of thousandths of a logical
//! pixel, so `2000` is a width of 2 and `1500` a width of 1.5. It is written
//! into the SVG text in its shortest decimal form (`2`, `1.5`, `0.125`).

use vstd::prelude::*;
use crate::icons::contains;

verus! {

/// The pattern that finds a `stroke-width` attribute with a whole-number value.
pub const STROKE_WIDTH_PATTERN: &'static str = "stroke-width=\"(\\d+)\"";

/// The literal start of every match of the stroke-width pattern.
pub const STROKE_WIDTH_PREFIX: &'static str = "stroke-width=\"";

/// Whether the regex crate compiles `pattern`.
pub uninterp spec fn regex_accepts(pattern: Seq<char>) -> bool;

/// What the regex crate makes of `haystack` when it replaces every match of
/// `pattern` by `rep`.
pub uninterp spec fn regex_replaced(pattern: Seq<char>, haystack: Seq<char>, rep: Seq<char>) -> Seq<char>;

/// Relies on regex::Regex::new, which compiles `pattern` or reports an error,
/// and on Regex::replace_all, which replaces every non-overlapping match in
/// `haystack` by `rep` and hands back a haystack that holds no match unchanged.
/// Every match of the stroke-width pattern starts with its literal prefix.
#[verifier::external_body]
fn replace_all_matches(pattern: &str, haystack: &str, rep: &str) -> (r: Option<String>)
    ensures
        r is Some <==> regex_accepts(pattern@),
        r matches Some(s) ==> s@ == regex_replaced(pattern@, haystack@, rep@),
        r matches Some(s) ==> (pattern@ == STROKE_WIDTH_PATTERN@ && !contains(
            haystack@,
            STROKE_WIDTH_PREFIX@,
        ) ==> s@ == haystack@),
{
    match regex::Regex::new(pattern) {
        Ok(re) => Some(re.replace_all(haystack, rep).into_owned()),
        Err(_) => None,
    }
}

/// The decimal digit for `d`.
pub open spec fn digit_char(d: nat) -> char {
    seq!['0', '1', '2', '3', '4', '5', '6', '7', '8', '9'][d as int]
}

/// The decimal digits of `n`, without leading zeros.
pub open spec fn decimal(n: nat) -> Seq<char>
    decreases n,
{
    if n < 10 {
        seq![digit_char(n)]
    } else {
        decimal(n / 10).push(digit_char(n % 10))
    }
}

/// The digits after the point of a fraction of `f` thousandths, `0 < f < 1000`,
/// without trailing zeros.
pub open spec fn fraction_digits(f: nat) -> Seq<char> {
    if f % 100 == 0 {
        seq![digit_char(f / 100)]
    } else if f % 10 == 0 {
        seq![digit_char(f / 100), digit_char((f / 10) % 10)]
    } else {
        seq![digit_char(f / 100), digit_char((f / 10) % 10), digit_char(f % 10)]
    }
}

/// The shortest decimal text of a width of `milli` thousandths.
pub open spec fn width_text(milli: nat) -> Seq<char> {
    if milli % 1000 == 0 {
        decimal(milli / 1000)
    } else {
        decimal(milli / 1000).push('.') + fraction_digits(milli % 1000)
    }
}

/// The attribute `stroke-width="W"` for a width of `milli` thousandths.
pub open spec fn stroke_attr(milli: nat) -> Seq<char> {
    STROKE_WIDTH_PREFIX@ + width_text(milli) + "\""@
}

/// The SVG text `original` with its stroke width set to `milli` thousandths.
pub open spec fn stroke_substituted(original: Seq<char>, milli: nat) -> Seq<char> {
    if regex_accepts(STROKE_WIDTH_PATTERN@) {
        regex_replaced(STROKE_WIDTH_PATTERN@, original, stroke_attr(milli))
    } else {
        original
    }
}

fn digit_str(d: u32) -> (r: &'static str)
    requires
        d < 10,
    ensures
        r@ == seq![digit_char(d as nat)],
{
    proof {
        reveal_strlit("0");
        reveal_strlit("1");
        reveal_strlit("2");
        reveal_strlit("3");
        reveal_strlit("4");
        reveal_strlit("5");
        reveal_strlit("6");
        reveal_strlit("7");
        reveal_strlit("8");
        reveal_strlit("9");
    }
    let r = if d == 0 {
        "0"
    } else if d == 1 {
        "1"
    } else if d == 2 {
        "2"
    } else if d == 3 {
        "3"
    } else if d == 4 {
        "4"
    } else if d == 5 {
        "5"
    } else if d == 6 {
        "6"
    } else if d == 7 {
        "7"
    } else if d == 8 {
        "8"
    } else {
        "9"
    };
    assert(r@ =~= seq![digit_char(d as nat)]);
    r
}

fn push_decimal(n: u32, out: &mut String)
    ensures
        final(out)@ == old(out)@ + decimal(n as nat),
    decreases n,
{
    if n < 10 {
        out.append(digit_str(n));
    } else {
        push_decimal(n / 10, out);
        out.append(digit_str(n % 10));
        assert(decimal(n as nat) == decimal((n / 10) as nat).push(digit_char((n % 10) as nat)));
        assert(final(out)@ =~= old(out)@ + decimal(n as nat));
    }
}

/// The shortest decimal text of a width of `milli` thousandths of a pixel.
pub fn format_width(milli: u32) -> (r: String)
    ensures
        r@ == width_text(milli as nat),
{
    let mut out = String::new();
    push_decimal(milli / 1000, &mut out);
    let f: u32 = milli % 1000;
    if f != 0 {
        out.append(".");
        out.append(digit_str(f / 100));
        if f % 100 != 0 {
            out.append(digit_str((f / 10) % 10));
            if f % 10 != 0 {
                out.append(digit_str(f % 10));
            }
        }
    }
    proof {
        reveal_strlit(".");
    }
    assert(out@ =~= width_text(milli as nat));
    out
}

/// The attribute `stroke-width="W"` for a width of `milli` thousandths of a pixel.
pub fn stroke_attribute(milli: u32) -> (r: String)
    ensures
        r@ == stroke_attr(milli as nat),
{
    let mut out = String::from_str(STROKE_WIDTH_PREFIX);
    let w = format_width(milli);
    out.append(w.as_str());
    out.append("\"");
    assert(out@ =~= stroke_attr(milli as nat));
    out
}

/// Sets the stroke width of the SVG text `original` to `milli` thousandths of
/// a pixel, by replacing the value of each `stroke-width="N"` attribute.
/// Text without such an attribute comes back as it was.
pub fn substitute_stroke_width(original: &str, milli: u32) -> (r: String)
    ensures
        r@ == stroke_substituted(original@, milli as nat),
        !contains(original@, STROKE_WIDTH_PREFIX@) ==> r@ == original@,
{
    let rep = stroke_attribute(milli);
    match replace_all_matches(STROKE_WIDTH_PATTERN, original, rep.as_str()) {
        Some(replaced) => replaced,
        None => String::from_str(original),
    }
}

} // verus!
