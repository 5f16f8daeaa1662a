//! Building blocks for the text of a report line.

use vstd::prelude::*;
use vstd::string::StringExecFns;

verus! {

/// The character that stands for a single decimal digit.
pub open spec fn digit_char(d: nat) -> char
    recommends
        d < 10,
{
    if d == 0 {
        '0'
    } else if d == 1 {
        '1'
    } else if d == 2 {
        '2'
    } else if d == 3 {
        '3'
    } else if d == 4 {
        '4'
    } else if d == 5 {
        '5'
    } else if d == 6 {
        '6'
    } else if d == 7 {
        '7'
    } else if d == 8 {
        '8'
    } else {
        '9'
    }
}

/// The decimal numeral of `n`: most significant digit first, no sign, no
/// padding, and a single `0` for zero.
pub open spec fn decimal_text(n: nat) -> Seq<char>
    decreases n,
{
    if n < 10 {
        seq![digit_char(n)]
    } else {
        decimal_text(n / 10).push(digit_char(n % 10))
    }
}

/// A numeral has at least one digit, and exactly one below ten.
pub proof fn lemma_decimal_text_len(n: nat)
    ensures
        decimal_text(n).len() >= 1,
        n < 10 <==> decimal_text(n).len() == 1,
    decreases n,
{
    if n >= 10 {
        lemma_decimal_text_len(n / 10);
    }
}

/// Two numbers with the same numeral are the same number.
pub proof fn lemma_decimal_text_injective(a: nat, b: nat)
    requires
        decimal_text(a) == decimal_text(b),
    ensures
        a == b,
    decreases a,
{
    lemma_decimal_text_len(a);
    lemma_decimal_text_len(b);
    if a < 10 {
        assert(decimal_text(a)[0] == digit_char(a));
        assert(decimal_text(b)[0] == digit_char(b));
    } else {
        assert(decimal_text(a).drop_last() =~= decimal_text(a / 10));
        assert(decimal_text(b).drop_last() =~= decimal_text(b / 10));
        lemma_decimal_text_injective(a / 10, b / 10);
        assert(decimal_text(a).last() == digit_char(a % 10));
        assert(decimal_text(b).last() == digit_char(b % 10));
    }
}

/// A numeral between a fixed label and a fixed unit tells its number: two
/// such texts are the same only where the numbers are.
pub proof fn lemma_measured_text_injective(label: Seq<char>, a: nat, b: nat, unit: Seq<char>)
    requires
        label + decimal_text(a) + unit == label + decimal_text(b) + unit,
    ensures
        a == b,
{
    let x = decimal_text(a);
    let y = decimal_text(b);
    let left = label + x + unit;
    let right = label + y + unit;
    assert(left.len() == right.len());
    assert forall|i: int| 0 <= i < x.len() implies x[i] == y[i] by {
        assert(left[label.len() + i] == x[i]);
        assert(right[label.len() + i] == y[i]);
    }
    assert(x =~= y);
    lemma_decimal_text_injective(a, b);
}

/// The one-character string of a decimal digit.
fn digit_str(d: u64) -> (s: &'static str)
    requires
        d < 10,
    ensures
        s@ == seq![digit_char(d as nat)],
{
    proof {
        reveal_strlit("0");
        reveal_strlit("1");
        reveal_strlit("2");
        reveal_strlit("3");
        reveal_strlit("4");
        reveal_strlit("5");
        reveal_strlit("6");
        reveal_strlit("7");
        reveal_strlit("8");
        reveal_strlit("9");
    }
    let s = if d == 0 {
        "0"
    } else if d == 1 {
        "1"
    } else if d == 2 {
        "2"
    } else if d == 3 {
        "3"
    } else if d == 4 {
        "4"
    } else if d == 5 {
        "5"
    } else if d == 6 {
        "6"
    } else if d == 7 {
        "7"
    } else if d == 8 {
        "8"
    } else {
        "9"
    };
    s
}

/// Appends the decimal numeral of `n` to `out`.
pub fn append_decimal(out: &mut String, n: u64)
    ensures
        final(out)@ == old(out)@ + decimal_text(n as nat),
    decreases n,
{
    if n >= 10 {
        append_decimal(out, n / 10);
    }
    out.append(digit_str(n % 10));
}

/// The decimal numeral of `n` as a string.
pub fn decimal(n: u64) -> (s: String)
    ensures
        s@ == decimal_text(n as nat),
{
    let mut s = String::new();
    append_decimal(&mut s, n);
    s
}

/// `label`, the decimal numeral of `n`, then `unit`.
pub fn measured(label: &str, n: u64, unit: &str) -> (s: String)
    ensures
        s@ == label@ + decimal_text(n as nat) + unit@,
{
    let mut s = String::from_str(label);
    append_decimal(&mut s, n);
    s.append(unit);
    s
}

/// `label` followed by `value`.
pub fn labelled(label: &str, value: &str) -> (s: String)
    ensures
        s@ == label@ + value@,
{
    let mut s = String::from_str(label);
    s.append(value);
    s
}

/// The text of a string between double quotes, with the characters that
/// would break the line or the quoting written as escapes: the form in which
/// the standard library shows a string for inspection.
pub uninterp spec fn quoted_text(s: Seq<char>) -> Seq<char>;

/// Calls the `Debug` formatting of `str`. The result is taken to depend on the
/// characters of `s` alone; nothing is claimed about which escapes it holds.
#[verifier::external_body]
fn quote(s: &str) -> (quoted: String)
    ensures
        quoted@ == quoted_text(s@),
{
    format!("{:?}", s)
}

/// The characters of an optional string.
pub open spec fn optional_chars(value: Option<String>) -> Option<Seq<char>> {
    match value {
        Some(s) => Some(s@),
        None => None,
    }
}

/// The marker shown for a value that is not available.
pub open spec fn absent_text() -> Seq<char> {
    "None"@
}

/// How an available value is shown, given its quoted form.
pub open spec fn present_text(quoted: Seq<char>) -> Seq<char> {
    "Some("@ + quoted + ")"@
}

/// How an optional string is shown: the absence marker, or the quoted value
/// wrapped as present.
pub open spec fn optional_text(value: Option<Seq<char>>) -> Seq<char> {
    match value {
        Some(s) => present_text(quoted_text(s)),
        None => absent_text(),
    }
}

/// The marker shown for a value that is not available.
pub fn absent() -> (s: String)
    ensures
        s@ == absent_text(),
{
    String::from_str("None")
}

/// Wraps an already quoted value as present.
pub fn present(quoted: &str) -> (s: String)
    ensures
        s@ == present_text(quoted@),
{
    let mut s = String::from_str("Some(");
    s.append(quoted);
    s.append(")");
    s
}

/// Shows an optional string.
pub fn optional(value: &Option<String>) -> (s: String)
    ensures
        s@ == optional_text(optional_chars(*value)),
{
    match value {
        Some(v) => {
            let quoted = quote(v.as_str());
            present(quoted.as_str())
        },
        None => absent(),
    }
}

} // verus!
