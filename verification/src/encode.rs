//! Canonical text encoding of the plain values that travel over the bridge:
//! decimal numbers, booleans, and strings embedded in script payloads.

use vstd::prelude::*;
use vstd::string::StrSliceExecFns;
use vstd::string::StringExecFns;

verus! {

/// Relies on std's `String::push`: appends exactly the given character.
pub assume_specification[ String::push ](s: &mut String, ch: char)
    ensures
        final(s)@ == old(s)@.push(ch),
;

/// Converts a bool to the text a JavaScript host expects.
pub fn bool_to_js(value: bool) -> (r: &'static str)
    ensures
        value ==> r@ == "true"@,
        !value ==> r@ == "false"@,
{
    if value {
        "true"
    } else {
        "false"
    }
}

/// Whether two strings spell the same characters.
pub fn str_eq(a: &str, b: &str) -> (r: bool)
    ensures
        r == (a@ == b@),
{
    String::from_str(a).eq(&String::from_str(b))
}

/// The decimal digit character for one digit value.
pub open spec fn spec_digit_char(d: int) -> char {
    if d == 0 {
        '0'
    } else if d == 1 {
        '1'
    } else if d == 2 {
        '2'
    } else if d == 3 {
        '3'
    } else if d == 4 {
        '4'
    } else if d == 5 {
        '5'
    } else if d == 6 {
        '6'
    } else if d == 7 {
        '7'
    } else if d == 8 {
        '8'
    } else {
        '9'
    }
}

/// The usual decimal spelling of a non-negative number: no sign, no leading
/// zero except for zero itself.
pub open spec fn spec_decimal(n: int) -> Seq<char>
    decreases n,
{
    if n < 10 {
        seq![spec_digit_char(n)]
    } else {
        spec_decimal(n / 10).push(spec_digit_char(n % 10))
    }
}

/// The usual decimal spelling of a signed number: a minus sign before the
/// digits when the number is negative.
pub open spec fn spec_decimal_signed(n: int) -> Seq<char> {
    if n < 0 {
        seq!['-'] + spec_decimal(-n)
    } else {
        spec_decimal(n)
    }
}

fn digit_char(d: u64) -> (c: char)
    requires
        d < 10,
    ensures
        c == spec_digit_char(d as int),
{
    match d {
        0 => '0',
        1 => '1',
        2 => '2',
        3 => '3',
        4 => '4',
        5 => '5',
        6 => '6',
        7 => '7',
        8 => '8',
        _ => '9',
    }
}

/// Writes a number in decimal.
pub fn u64_to_string(n: u64) -> (r: String)
    ensures
        r@ == spec_decimal(n as int),
    decreases n,
{
    let d = digit_char(n % 10);
    if n < 10 {
        let mut s = String::new();
        s.push(d);
        proof {
            assert(s@ =~= seq![spec_digit_char(n as int)]);
        }
        s
    } else {
        let mut s = u64_to_string(n / 10);
        s.push(d);
        s
    }
}

/// Writes a signed number in decimal.
pub fn i64_to_string(n: i64) -> (r: String)
    ensures
        r@ == spec_decimal_signed(n as int),
{
    if n < 0 {
        let digits = u64_to_string((-(n as i128)) as u64);
        let mut s = String::new();
        s.push('-');
        let r = s.concat(digits.as_str());
        proof {
            assert(r@ =~= seq!['-'] + spec_decimal(-n as int));
        }
        r
    } else {
        u64_to_string(n as u64)
    }
}

/// A sequence of items separated by commas.
pub open spec fn spec_comma_join(items: Seq<Seq<char>>) -> Seq<char>
    decreases items.len(),
{
    if items.len() == 0 {
        Seq::empty()
    } else if items.len() == 1 {
        items[0]
    } else {
        spec_comma_join(items.drop_last()) + seq![','] + items.last()
    }
}

/// Joins already encoded items with commas.
pub fn join_comma(items: &Vec<String>) -> (r: String)
    ensures
        r@ == spec_comma_join(items.deep_view()),
{
    let mut out = String::new();
    let n = items.len();
    let mut i: usize = 0;
    while i < n
        invariant
            i <= n,
            n == items@.len(),
            out@ == spec_comma_join(items.deep_view().take(i as int)),
        decreases n - i,
    {
        if i > 0 {
            out.push(',');
        }
        let mut out2 = out;
        out2.append(items[i].as_str());
        out = out2;
        proof {
            let d = items.deep_view();
            assert(d.take(i + 1).drop_last() =~= d.take(i as int));
            assert(d.take(i + 1).last() == d[i as int]);
            if i > 0 {
                assert(out@ =~= spec_comma_join(d.take(i as int)) + seq![','] + d[i as int]);
            } else {
                assert(d.take(1).len() == 1);
                assert(out@ =~= d[0]);
            }
        }
        i = i + 1;
    }
    proof {
        assert(items.deep_view().take(n as int) =~= items.deep_view());
    }
    out
}

/// How one character appears inside an escaped string: backslash, double
/// quote and the three common control characters get a backslash escape,
/// every other character stands for itself.
pub open spec fn spec_escape_char(c: char) -> Seq<char> {
    if c == '\\' {
        seq!['\\', '\\']
    } else if c == '"' {
        seq!['\\', '"']
    } else if c == '\n' {
        seq!['\\', 'n']
    } else if c == '\r' {
        seq!['\\', 'r']
    } else if c == '\t' {
        seq!['\\', 't']
    } else {
        seq![c]
    }
}

/// The whole string with every character escaped.
pub open spec fn spec_escaped(s: Seq<char>) -> Seq<char>
    decreases s.len(),
{
    if s.len() == 0 {
        Seq::empty()
    } else {
        spec_escaped(s.drop_last()) + spec_escape_char(s.last())
    }
}

/// Escapes a string for safe inclusion in a JavaScript or JSON literal.
pub fn escape_json_for_js(json: &str) -> (r: String)
    ensures
        r@ == spec_escaped(json@),
{
    let len = json.unicode_len();
    let mut out = String::new();
    let mut i: usize = 0;
    while i < len
        invariant
            i <= len,
            len == json@.len(),
            out@ == spec_escaped(json@.take(i as int)),
        decreases len - i,
    {
        let c = json.get_char(i);
        if c == '\\' {
            out.push('\\');
            out.push('\\');
        } else if c == '"' {
            out.push('\\');
            out.push('"');
        } else if c == '\n' {
            out.push('\\');
            out.push('n');
        } else if c == '\r' {
            out.push('\\');
            out.push('r');
        } else if c == '\t' {
            out.push('\\');
            out.push('t');
        } else {
            out.push(c);
        }
        proof {
            assert(json@.take(i + 1).drop_last() =~= json@.take(i as int));
            assert(json@.take(i + 1).last() == json@[i as int]);
            assert(out@ =~= spec_escaped(json@.take(i as int))
                + spec_escape_char(json@[i as int]));
        }
        i = i + 1;
    }
    proof {
        assert(json@.take(len as int) =~= json@);
    }
    out
}

/// A string as it appears in a payload: escaped, inside double quotes.
pub open spec fn spec_json_string(s: Seq<char>) -> Seq<char> {
    seq!['"'] + spec_escaped(s) + seq!['"']
}

/// Quotes and escapes a string for a payload.
pub fn json_string(s: &str) -> (r: String)
    ensures
        r@ == spec_json_string(s@),
{
    let mut out = String::new();
    out.push('"');
    let mut out2 = out;
    out2.append(escape_json_for_js(s).as_str());
    out2.push('"');
    proof {
        assert(out2@ =~= spec_json_string(s@));
    }
    out2
}

} // verus!
