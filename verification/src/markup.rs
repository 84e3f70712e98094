//! The markup fragments the renderer emits: elements, attributes, text
//! content, and the decimal text of an integer, each with a specification of
//! the exact character sequence produced.

use vstd::prelude::*;

verus! {

/// One attribute as it appears inside a start tag: ` name="value"`.
pub open spec fn spec_attr(name: Seq<char>, value: Seq<char>) -> Seq<char> {
    " "@ + name + "=\""@ + value + "\""@
}

/// A whole element: start tag with its attribute text, body, end tag.
pub open spec fn spec_element(tag: Seq<char>, attrs: Seq<char>, body: Seq<char>) -> Seq<char> {
    "<"@ + tag + attrs + ">"@ + body + "</"@ + tag + ">"@
}

/// An element with text content and no attributes.
pub open spec fn spec_text_element(tag: Seq<char>, text: Seq<char>) -> Seq<char> {
    spec_element(tag, Seq::empty(), text)
}

/// The decimal digit sequence of `n`, without sign; `0 <= n`.
pub open spec fn spec_nat_text(n: int) -> Seq<char>
    recommends
        0 <= n,
    decreases n,
{
    if n < 10 {
        seq![spec_digit_char(n)]
    } else {
        spec_nat_text(n / 10) + seq![spec_digit_char(n % 10)]
    }
}

/// The decimal text of a signed integer, a leading `-` when negative.
pub open spec fn spec_int_text(n: int) -> Seq<char> {
    if n < 0 {
        seq!['-'] + spec_nat_text(-n)
    } else {
        spec_nat_text(n)
    }
}

/// The character for one decimal digit; `0 <= d <= 9`.
pub open spec fn spec_digit_char(d: int) -> char
    recommends
        0 <= d <= 9,
{
    if d == 0 {
        '0'
    } else if d == 1 {
        '1'
    } else if d == 2 {
        '2'
    } else if d == 3 {
        '3'
    } else if d == 4 {
        '4'
    } else if d == 5 {
        '5'
    } else if d == 6 {
        '6'
    } else if d == 7 {
        '7'
    } else if d == 8 {
        '8'
    } else {
        '9'
    }
}

/// The rendering of an optional text field: `<tag>text</tag>` when the field
/// is set, nothing at all when it is absent.
pub open spec fn spec_opt_text_element(tag: Seq<char>, field: Option<&str>) -> Seq<char> {
    match field {
        Some(t) => spec_text_element(tag, t@),
        None => Seq::empty(),
    }
}

/// The text an attribute value gets for a boolean flag.
pub open spec fn spec_bool_text(b: bool) -> Seq<char> {
    if b {
        "true"@
    } else {
        "false"@
    }
}

/// Builds ` name="value"` as a fresh string.
pub fn attr_text(name: &str, value: &str) -> (r: String)
    ensures
        r@ == spec_attr(name@, value@),
{
    let mut s = String::from_str(" ");
    s.append(name);
    s.append("=\"");
    s.append(value);
    s.append("\"");
    proof {
        assert(s@ =~= spec_attr(name@, value@));
    }
    s
}

/// Appends `<tag>text</tag>` to `out`.
pub fn append_text_element(out: &mut String, tag: &str, text: &str)
    ensures
        final(out)@ == old(out)@ + spec_text_element(tag@, text@),
{
    out.append("<");
    out.append(tag);
    out.append(">");
    out.append(text);
    out.append("</");
    out.append(tag);
    out.append(">");
    proof {
        assert(out@ =~= old(out)@ + spec_text_element(tag@, text@));
    }
}

/// Builds the empty element `<tag></tag>` as a fresh string.
pub fn empty_element(tag: &str) -> (r: String)
    ensures
        r@ == spec_element(tag@, Seq::empty(), Seq::empty()),
{
    let mut e = String::from_str("<");
    e.append(tag);
    e.append(">");
    e.append("</");
    e.append(tag);
    e.append(">");
    proof {
        assert(e@ =~= spec_element(tag@, Seq::empty(), Seq::empty()));
    }
    e
}

/// Appends `<tag>text</tag>` when the field is set, nothing otherwise.
pub fn append_opt_text_element(out: &mut String, tag: &str, field: Option<&str>)
    ensures
        final(out)@ == old(out)@ + spec_opt_text_element(tag@, field),
{
    match field {
        Some(t) => {
            append_text_element(out, tag, t);
        },
        None => {
            proof {
                assert(out@ =~= old(out)@ + spec_opt_text_element(tag@, field));
            }
        },
    }
}

/// Builds `<tag>text</tag>` as a fresh string.
pub fn text_element(tag: &str, text: &str) -> (r: String)
    ensures
        r@ == spec_text_element(tag@, text@),
{
    let mut e = String::new();
    append_text_element(&mut e, tag, text);
    proof {
        assert(Seq::<char>::empty() + spec_text_element(tag@, text@) =~= spec_text_element(
            tag@,
            text@,
        ));
    }
    e
}

/// Builds `<tag>text</tag>` when the field is set, the empty string when it
/// is absent.
pub fn opt_text_element(tag: &str, field: Option<&str>) -> (r: String)
    ensures
        r@ == spec_opt_text_element(tag@, field),
{
    let mut e = String::new();
    append_opt_text_element(&mut e, tag, field);
    proof {
        assert(Seq::<char>::empty() + spec_opt_text_element(tag@, field) =~= spec_opt_text_element(
            tag@,
            field,
        ));
    }
    e
}

/// Wraps a finished attribute text and body in `<tag attrs>body</tag>`.
pub fn wrap_element(tag: &str, attrs: &str, body: &str) -> (r: String)
    ensures
        r@ == spec_element(tag@, attrs@, body@),
{
    let mut e = String::from_str("<");
    e.append(tag);
    e.append(attrs);
    e.append(">");
    e.append(body);
    e.append("</");
    e.append(tag);
    e.append(">");
    proof {
        assert(e@ =~= spec_element(tag@, attrs@, body@));
    }
    e
}

fn digit_str(d: u64) -> (r: &'static str)
    requires
        d <= 9,
    ensures
        r@ =~= seq![spec_digit_char(d as int)],
{
    proof {
        reveal_strlit("0");
        reveal_strlit("1");
        reveal_strlit("2");
        reveal_strlit("3");
        reveal_strlit("4");
        reveal_strlit("5");
        reveal_strlit("6");
        reveal_strlit("7");
        reveal_strlit("8");
        reveal_strlit("9");
    }
    if d == 0 {
        "0"
    } else if d == 1 {
        "1"
    } else if d == 2 {
        "2"
    } else if d == 3 {
        "3"
    } else if d == 4 {
        "4"
    } else if d == 5 {
        "5"
    } else if d == 6 {
        "6"
    } else if d == 7 {
        "7"
    } else if d == 8 {
        "8"
    } else {
        "9"
    }
}

fn nat_text(n: u64) -> (r: String)
    ensures
        r@ == spec_nat_text(n as int),
    decreases n,
{
    if n < 10 {
        String::from_str(digit_str(n))
    } else {
        let mut s = nat_text(n / 10);
        s.append(digit_str(n % 10));
        proof {
            assert(s@ =~= spec_nat_text(n as int));
        }
        s
    }
}

/// The decimal text of `n`, matching `spec_int_text`.
pub fn int_text(n: i64) -> (r: String)
    ensures
        r@ == spec_int_text(n as int),
{
    if n >= 0 {
        nat_text(n as u64)
    } else {
        let magnitude: u64 = (-(n as i128)) as u64;
        let mut s = String::from_str("-");
        proof {
            reveal_strlit("-");
            assert(magnitude as int == -(n as int));
        }
        s.append(nat_text(magnitude).as_str());
        proof {
            assert(s@ =~= spec_int_text(n as int));
        }
        s
    }
}

/// The attribute text of a boolean flag, matching `spec_bool_text`.
pub fn bool_text(b: bool) -> (r: &'static str)
    ensures
        r@ == spec_bool_text(b),
{
    if b {
        "true"
    } else {
        "false"
    }
}

} // verus!
