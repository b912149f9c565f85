//! Building blocks for the JSON texts the protocol sends.
//!
//! Every payload this library emits is JSON written with a fixed member
//! layout, so the text is produced by verified code: string escaping,
//! decimal rendering of integers, and comma-joined members inside braces
//! or brackets. The spec functions here define the exact character
//! sequences; the exec functions produce them.

use vstd::prelude::*;
use vstd::string::StringExecFns;
use vstd::string::StrSliceExecFns;

verus! {

/// The lower-case hexadecimal digit for a value below 16.
pub open spec fn hex_char(d: int) -> char {
    if d == 0 { '0' } else if d == 1 { '1' } else if d == 2 { '2' } else if d == 3 { '3' }
    else if d == 4 { '4' } else if d == 5 { '5' } else if d == 6 { '6' } else if d == 7 { '7' }
    else if d == 8 { '8' } else if d == 9 { '9' } else if d == 10 { 'a' } else if d == 11 { 'b' }
    else if d == 12 { 'c' } else if d == 13 { 'd' } else if d == 14 { 'e' } else { 'f' }
}

/// The decimal digit for a value below 10.
pub open spec fn digit_char(d: int) -> char {
    if d == 0 { '0' } else if d == 1 { '1' } else if d == 2 { '2' } else if d == 3 { '3' }
    else if d == 4 { '4' } else if d == 5 { '5' } else if d == 6 { '6' } else if d == 7 { '7' }
    else if d == 8 { '8' } else { '9' }
}

/// How one character appears inside a JSON string literal: quote and
/// backslash get a backslash escape, the named control characters get their
/// short escapes, every other control character becomes a `\u00..` escape,
/// and all remaining characters stand as they are.
pub open spec fn escaped_char(c: char) -> Seq<char> {
    if c == '"' {
        seq!['\\', '"']
    } else if c == '\\' {
        seq!['\\', '\\']
    } else if c == '\u{08}' {
        seq!['\\', 'b']
    } else if c == '\t' {
        seq!['\\', 't']
    } else if c == '\n' {
        seq!['\\', 'n']
    } else if c == '\u{0c}' {
        seq!['\\', 'f']
    } else if c == '\r' {
        seq!['\\', 'r']
    } else if (c as u32) < 0x20 {
        seq!['\\', 'u', '0', '0', hex_char((c as u32 / 16) as int), hex_char((c as u32 % 16) as int)]
    } else {
        seq![c]
    }
}

/// A whole character sequence with every character escaped.
pub open spec fn escaped_seq(s: Seq<char>) -> Seq<char>
    decreases s.len(),
{
    if s.len() == 0 {
        Seq::empty()
    } else {
        escaped_seq(s.drop_last()) + escaped_char(s.last())
    }
}

/// A JSON string literal: the escaped text between double quotes.
pub open spec fn json_string(s: Seq<char>) -> Seq<char> {
    seq!['"'] + escaped_seq(s) + seq!['"']
}

/// The decimal digits of a non-negative integer, most significant first.
pub open spec fn dec_digits(n: int) -> Seq<char>
    decreases n,
{
    if n < 10 {
        seq![digit_char(n)]
    } else {
        dec_digits(n / 10) + seq![digit_char(n % 10)]
    }
}

/// One object member: the quoted name, a colon, and the already rendered
/// value text.
pub open spec fn member(name: Seq<char>, value: Seq<char>) -> Seq<char> {
    json_string(name) + seq![':'] + value
}

/// Pieces of text joined by commas.
pub open spec fn join_comma(ms: Seq<Seq<char>>) -> Seq<char>
    decreases ms.len(),
{
    if ms.len() == 0 {
        Seq::empty()
    } else if ms.len() == 1 {
        ms[0]
    } else {
        join_comma(ms.drop_last()) + seq![','] + ms.last()
    }
}

/// A JSON object holding the given members in order.
pub open spec fn json_object(ms: Seq<Seq<char>>) -> Seq<char> {
    seq!['{'] + join_comma(ms) + seq!['}']
}

/// A JSON array holding the given values in order.
pub open spec fn json_array(vs: Seq<Seq<char>>) -> Seq<char> {
    seq!['['] + join_comma(vs) + seq![']']
}

/// The members an optional string field contributes to an object: one
/// string member when the value is present, nothing when it is absent.
pub open spec fn opt_str_members(name: Seq<char>, v: Option<String>) -> Seq<Seq<char>> {
    match v {
        Some(s) => seq![member(name, json_string(s@))],
        None => Seq::empty(),
    }
}

/// The members an optional integer field contributes to an object.
pub open spec fn opt_u64_members(name: Seq<char>, v: Option<u64>) -> Seq<Seq<char>> {
    match v {
        Some(n) => seq![member(name, dec_digits(n as int))],
        None => Seq::empty(),
    }
}

/// Relies on `String::push`: appends exactly one character.
#[verifier::external_body]
fn push_char(out: &mut String, c: char)
    ensures
        final(out)@ == old(out)@ + seq![c],
{
    out.push(c);
}

/// Appends the lower-case hexadecimal digit of a value below 16.
fn push_hex_digit(out: &mut String, d: u32)
    requires
        d < 16,
    ensures
        final(out)@ == old(out)@ + seq![hex_char(d as int)],
{
    let c = match d {
        0 => '0', 1 => '1', 2 => '2', 3 => '3', 4 => '4',
        5 => '5', 6 => '6', 7 => '7', 8 => '8', 9 => '9',
        10 => 'a', 11 => 'b', 12 => 'c', 13 => 'd', 14 => 'e',
        _ => 'f',
    };
    push_char(out, c);
}

/// Appends one character in its escaped JSON form.
fn push_escaped_char(out: &mut String, c: char)
    ensures
        final(out)@ == old(out)@ + escaped_char(c),
{
    if c == '"' {
        push_char(out, '\\');
        push_char(out, '"');
    } else if c == '\\' {
        push_char(out, '\\');
        push_char(out, '\\');
    } else if c == '\u{08}' {
        push_char(out, '\\');
        push_char(out, 'b');
    } else if c == '\t' {
        push_char(out, '\\');
        push_char(out, 't');
    } else if c == '\n' {
        push_char(out, '\\');
        push_char(out, 'n');
    } else if c == '\u{0c}' {
        push_char(out, '\\');
        push_char(out, 'f');
    } else if c == '\r' {
        push_char(out, '\\');
        push_char(out, 'r');
    } else {
        let code = c as u32;
        if code < 0x20 {
            push_char(out, '\\');
            push_char(out, 'u');
            push_char(out, '0');
            push_char(out, '0');
            push_hex_digit(out, code / 16);
            push_hex_digit(out, code % 16);
        } else {
            push_char(out, c);
        }
    }
    proof {
        assert(out@ =~= old(out)@ + escaped_char(c));
    }
}

/// Appends a whole string in its escaped JSON form.
pub fn push_escaped(out: &mut String, s: &str)
    ensures
        final(out)@ == old(out)@ + escaped_seq(s@),
{
    let n = s.unicode_len();
    let mut i: usize = 0;
    while i < n
        invariant
            i <= n,
            n == s@.len(),
            out@ == old(out)@ + escaped_seq(s@.take(i as int)),
        decreases n - i,
    {
        let c = s.get_char(i);
        push_escaped_char(out, c);
        proof {
            assert(s@.take(i + 1 as int).drop_last() =~= s@.take(i as int));
            assert(s@.take(i + 1 as int).last() == c);
            assert(out@ =~= old(out)@ + escaped_seq(s@.take(i + 1 as int)));
        }
        i = i + 1;
    }
    proof {
        assert(s@.take(n as int) =~= s@);
    }
}

/// Appends a JSON string literal: quote, escaped text, quote.
pub fn push_json_string(out: &mut String, s: &str)
    ensures
        final(out)@ == old(out)@ + json_string(s@),
{
    push_char(out, '"');
    push_escaped(out, s);
    push_char(out, '"');
    proof {
        assert(out@ =~= old(out)@ + json_string(s@));
    }
}

/// Appends the decimal digit of a value below 10.
fn push_digit(out: &mut String, d: u64)
    requires
        d < 10,
    ensures
        final(out)@ == old(out)@ + seq![digit_char(d as int)],
{
    let c = match d {
        0 => '0', 1 => '1', 2 => '2', 3 => '3', 4 => '4',
        5 => '5', 6 => '6', 7 => '7', 8 => '8',
        _ => '9',
    };
    push_char(out, c);
}

/// Appends the decimal rendering of an integer, most significant digit
/// first, with no sign and no leading zeroes.
pub fn push_dec_u64(out: &mut String, n: u64)
    ensures
        final(out)@ == old(out)@ + dec_digits(n as int),
    decreases n,
{
    if n >= 10 {
        push_dec_u64(out, n / 10);
    }
    push_digit(out, n % 10);
    proof {
        assert(out@ =~= old(out)@ + dec_digits(n as int));
    }
}

/// The views of a sequence of built strings.
pub open spec fn views_of(ms: Seq<String>) -> Seq<Seq<char>> {
    Seq::new(ms.len(), |i: int| ms[i]@)
}

/// The member texts joined with commas, one step at a time: joining one more
/// member appends a comma first unless it is the first member.
proof fn lemma_join_comma_step(ms: Seq<Seq<char>>, i: int)
    requires
        0 <= i < ms.len(),
    ensures
        join_comma(ms.take(i + 1)) == if i == 0 {
            ms[0]
        } else {
            join_comma(ms.take(i)) + seq![','] + ms[i]
        },
{
    assert(ms.take(i + 1).drop_last() =~= ms.take(i));
    assert(ms.take(i + 1).last() == ms[i]);
    if i == 0 {
        assert(ms.take(1)[0] == ms[0]);
    }
}

/// Joins the given member texts with commas between the given bracket pair.
fn join_between(open_c: char, close_c: char, members: &Vec<String>) -> (r: String)
    ensures
        r@ == seq![open_c] + join_comma(views_of(members@)) + seq![close_c],
{
    let ghost dv = views_of(members@);
    let mut out = String::new();
    push_char(&mut out, open_c);
    let mut i: usize = 0;
    while i < members.len()
        invariant
            i <= members@.len(),
            dv == views_of(members@),
            out@ == seq![open_c] + join_comma(dv.take(i as int)),
        decreases members@.len() - i,
    {
        if i > 0 {
            push_char(&mut out, ',');
        }
        out.append(members[i].as_str());
        proof {
            assert(dv[i as int] == members@[i as int]@);
            lemma_join_comma_step(dv, i as int);
            assert(out@ =~= seq![open_c] + join_comma(dv.take(i + 1 as int)));
        }
        i = i + 1;
    }
    push_char(&mut out, close_c);
    proof {
        assert(dv.take(members@.len() as int) =~= dv);
    }
    out
}

/// Builds the text of a JSON object from its member texts.
pub fn object_from_members(members: &Vec<String>) -> (r: String)
    ensures
        r@ == json_object(views_of(members@)),
{
    join_between('{', '}', members)
}

/// Builds the text of a JSON array from its value texts.
pub fn array_from_values(values: &Vec<String>) -> (r: String)
    ensures
        r@ == json_array(views_of(values@)),
{
    join_between('[', ']', values)
}

/// Builds one object member whose value is a JSON string.
pub fn string_member(name: &str, value: &str) -> (r: String)
    ensures
        r@ == member(name@, json_string(value@)),
{
    let mut out = String::new();
    push_json_string(&mut out, name);
    push_char(&mut out, ':');
    push_json_string(&mut out, value);
    proof {
        assert(out@ =~= member(name@, json_string(value@)));
    }
    out
}

/// Builds one object member whose value is a decimal integer.
pub fn u64_member(name: &str, value: u64) -> (r: String)
    ensures
        r@ == member(name@, dec_digits(value as int)),
{
    let mut out = String::new();
    push_json_string(&mut out, name);
    push_char(&mut out, ':');
    push_dec_u64(&mut out, value);
    proof {
        assert(out@ =~= member(name@, dec_digits(value as int)));
    }
    out
}

/// The decimal rendering of an integer as its own value text.
pub fn dec_string(n: u64) -> (r: String)
    ensures
        r@ == dec_digits(n as int),
{
    let mut out = String::new();
    push_dec_u64(&mut out, n);
    out
}

/// The JSON text of a boolean value.
pub open spec fn bool_text(b: bool) -> Seq<char> {
    if b {
        "true"@
    } else {
        "false"@
    }
}

/// Builds one object member whose value is a boolean.
pub fn bool_member(name: &str, value: bool) -> (r: String)
    ensures
        r@ == member(name@, bool_text(value)),
{
    let mut out = String::new();
    push_json_string(&mut out, name);
    push_char(&mut out, ':');
    if value {
        out.append("true");
    } else {
        out.append("false");
    }
    proof {
        assert(out@ =~= member(name@, bool_text(value)));
    }
    out
}

/// The JSON text of an optional string: a string literal, or `null` when
/// the value is absent.
pub open spec fn opt_string_json(v: Option<String>) -> Seq<char> {
    match v {
        Some(s) => json_string(s@),
        None => "null"@,
    }
}

/// Builds one object member whose value is an optional string, writing
/// `null` when the value is absent.
pub fn opt_string_member(name: &str, value: &Option<String>) -> (r: String)
    ensures
        r@ == member(name@, opt_string_json(*value)),
{
    let mut out = String::new();
    push_json_string(&mut out, name);
    push_char(&mut out, ':');
    match value {
        Some(s) => push_json_string(&mut out, s.as_str()),
        None => out.append("null"),
    }
    proof {
        assert(out@ =~= member(name@, opt_string_json(*value)));
    }
    out
}

/// Appends the member of an optional string field to a member list: one
/// string member when the value is present, nothing when it is absent.
pub fn push_opt_str_member(ms: &mut Vec<String>, name: &str, v: &Option<String>)
    ensures
        views_of(final(ms)@) == views_of(old(ms)@) + opt_str_members(name@, *v),
{
    if let Some(s) = v {
        ms.push(string_member(name, s.as_str()));
    }
    proof {
        assert(views_of(ms@) =~= views_of(old(ms)@) + opt_str_members(name@, *v));
    }
}

/// Appends the member of an optional integer field to a member list.
pub fn push_opt_u64_member(ms: &mut Vec<String>, name: &str, v: &Option<u64>)
    ensures
        views_of(final(ms)@) == views_of(old(ms)@) + opt_u64_members(name@, *v),
{
    if let Some(n) = v {
        ms.push(u64_member(name, *n));
    }
    proof {
        assert(views_of(ms@) =~= views_of(old(ms)@) + opt_u64_members(name@, *v));
    }
}

/// Builds one object member whose value is already rendered JSON text.
pub fn raw_member(name: &str, value: String) -> (r: String)
    ensures
        r@ == member(name@, value@),
{
    let mut out = String::new();
    push_json_string(&mut out, name);
    push_char(&mut out, ':');
    out.append(value.as_str());
    proof {
        assert(out@ =~= member(name@, value@));
    }
    out
}

} // verus!
