//! Small text helpers over `str` and `String`.

use vstd::prelude::*;

verus! {

/// Result of `<u64 as FromStr>::from_str` on the text: the number, or the
/// error's display text.
pub uninterp spec fn u64_parse(s: Seq<char>) -> Result<u64, Seq<char>>;

/// Every character is an ASCII digit.
pub open spec fn all_ascii_digits(s: Seq<char>) -> bool {
    forall|i: int| 0 <= i < s.len() ==> '0' <= #[trigger] s[i] <= '9'
}

/// Number written by a string of ASCII digits.
pub open spec fn digits_value(s: Seq<char>) -> nat
    decreases s.len(),
{
    if s.len() == 0 {
        0
    } else {
        digits_value(s.drop_last()) * 10 + ((s.last() as int - 48) as nat)
    }
}

/// The digits of an unsigned number's text: what follows one leading `+`.
pub open spec fn unsigned_digits(s: Seq<char>) -> Seq<char> {
    if s.len() > 0 && s[0] == '+' {
        s.drop_first()
    } else {
        s
    }
}

/// The number `<u64 as FromStr>` reads from `s`, as its documentation gives
/// it: an optional `+`, then one or more ASCII digits worth at most
/// `u64::MAX`; `None` for any other text.
pub open spec fn u64_from_str(s: Seq<char>) -> Option<u64> {
    let d = unsigned_digits(s);
    if d.len() > 0 && all_ascii_digits(d) && digits_value(d) <= u64::MAX {
        Some(digits_value(d) as u64)
    } else {
        None
    }
}

proof fn lemma_digit_char(d: nat)
    requires
        d < 10,
    ensures
        '0' <= digit_char(d) <= '9',
        digit_char(d) as int - 48 == d,
{
}

/// The decimal digits of `n` read back as `n`.
pub proof fn lemma_u64_digits_value(n: nat)
    ensures
        u64_digits(n).len() > 0,
        all_ascii_digits(u64_digits(n)),
        digits_value(u64_digits(n)) == n,
        u64_digits(n)[0] != '+',
        n <= u64::MAX ==> u64_from_str(u64_digits(n)) == Some(n as u64),
    decreases n,
{
    let t = u64_digits(n);
    lemma_digit_char(n % 10);
    if n < 10 {
        assert(t.drop_last() =~= Seq::<char>::empty());
        assert(t.last() == digit_char(n));
        assert(digits_value(t) == digits_value(t.drop_last()) * 10 + ((t.last() as int - 48) as nat));
        assert(digits_value(t) == n);
    } else {
        lemma_u64_digits_value(n / 10);
        let p = u64_digits(n / 10);
        assert(t.drop_last() =~= p);
        assert(t.last() == digit_char(n % 10));
        assert(t[0] == p[0]);
        assert forall|i: int| 0 <= i < t.len() implies '0' <= #[trigger] t[i] <= '9' by {
            if i < p.len() {
                assert(t[i] == p[i]);
            }
        }
        assert(digits_value(t) == digits_value(p) * 10 + ((t.last() as int - 48) as nat));
        vstd::arithmetic::div_mod::lemma_fundamental_div_mod(n as int, 10);
        assert(digits_value(t) == n);
    }
    assert(unsigned_digits(t) == t);
}

/// A character with the Unicode `White_Space` property, which is what
/// `char::is_whitespace` and `str::trim` go by.
pub open spec fn is_white_space(c: char) -> bool {
    let n = c as int;
    ||| 0x09 <= n <= 0x0d
    ||| n == 0x20
    ||| n == 0x85
    ||| n == 0xa0
    ||| n == 0x1680
    ||| 0x2000 <= n <= 0x200a
    ||| n == 0x2028
    ||| n == 0x2029
    ||| n == 0x202f
    ||| n == 0x205f
    ||| n == 0x3000
}

/// `s` without its leading white space.
pub open spec fn trim_start_spec(s: Seq<char>) -> Seq<char>
    decreases s.len(),
{
    if s.len() > 0 && is_white_space(s[0]) {
        trim_start_spec(s.drop_first())
    } else {
        s
    }
}

/// `s` without its trailing white space.
pub open spec fn trim_end_spec(s: Seq<char>) -> Seq<char>
    decreases s.len(),
{
    if s.len() > 0 && is_white_space(s.last()) {
        trim_end_spec(s.drop_last())
    } else {
        s
    }
}

/// Text that `str::trim` leaves of `s`: leading and trailing white space removed.
pub open spec fn str_trim(s: Seq<char>) -> Seq<char> {
    trim_end_spec(trim_start_spec(s))
}

/// Text that `<str as Debug>` writes for `s`: quoted, special characters escaped.
pub uninterp spec fn str_debug(s: Seq<char>) -> Seq<char>;

/// Decimal digits of `n`, as `<u64 as Display>` writes them.
pub open spec fn u64_digits(n: nat) -> Seq<char>
    decreases n,
{
    if n < 10 {
        seq![digit_char(n)]
    } else {
        u64_digits(n / 10).push(digit_char(n % 10))
    }
}

pub open spec fn digit_char(d: nat) -> char {
    if d == 0 {
        '0'
    } else if d == 1 {
        '1'
    } else if d == 2 {
        '2'
    } else if d == 3 {
        '3'
    } else if d == 4 {
        '4'
    } else if d == 5 {
        '5'
    } else if d == 6 {
        '6'
    } else if d == 7 {
        '7'
    } else if d == 8 {
        '8'
    } else {
        '9'
    }
}

/// `<u64 as FromStr>::from_str`, its error as display text. It states what
/// the documentation gives: an optional `+` and then only ASCII digits, worth
/// at most `u64::MAX`, parse to their number, and any other text is an error.
/// The error's text is named, not stated.
#[verifier::external_body]
pub(crate) fn parse_u64_result(s: &str) -> (r: Result<u64, String>)
    ensures
        match r {
            Ok(v) => u64_parse(s@) == Ok::<u64, Seq<char>>(v),
            Err(e) => u64_parse(s@) == Err::<u64, Seq<char>>(e@),
        },
        match r {
            Ok(v) => u64_from_str(s@) == Some(v),
            Err(_) => u64_from_str(s@) is None,
        },
{
    match s.parse::<u64>() {
        Ok(v) => Ok(v),
        Err(e) => Err(e.to_string()),
    }
}

/// The number a text holds, `None` when it does not parse.
pub fn parse_u64(s: &str) -> (r: Option<u64>)
    ensures
        r == u64_from_str(s@),
        forall|n: u64| s@ == #[trigger] u64_digits(n as nat) ==> r == Some(n),
{
    proof {
        assert forall|n: u64| s@ == #[trigger] u64_digits(n as nat) implies u64_from_str(s@) == Some(n) by {
            lemma_u64_digits_value(n as nat);
        }
    }
    match parse_u64_result(s) {
        Ok(v) => Some(v),
        Err(_) => None,
    }
}

/// `str::trim`.
#[verifier::external_body]
pub(crate) fn trim(s: &str) -> (r: &str)
    ensures
        r@ == str_trim(s@),
{
    s.trim()
}

/// `<str as Debug>` through `format!("{:?}")`.
#[verifier::external_body]
pub(crate) fn debug_quoted(s: &str) -> (r: String)
    ensures
        r@ == str_debug(s@),
{
    format!("{:?}", s)
}

/// `"true"` or `"false"`.
pub open spec fn bool_text_spec(b: bool) -> Seq<char> {
    if b {
        "true"@
    } else {
        "false"@
    }
}

pub fn bool_text(b: bool) -> (r: &'static str)
    ensures
        r@ == bool_text_spec(b),
{
    if b {
        "true"
    } else {
        "false"
    }
}

/// The items separated by `sep`.
pub open spec fn joined(items: Seq<Seq<char>>, sep: Seq<char>) -> Seq<char>
    decreases items.len(),
{
    if items.len() == 0 {
        Seq::empty()
    } else if items.len() == 1 {
        items[0]
    } else {
        joined(items.drop_last(), sep) + sep + items.last()
    }
}

/// `items.join(sep)`.
pub fn join(items: &Vec<String>, sep: &str) -> (r: String)
    ensures
        r@ == joined(items@.map_values(|s: String| s@), sep@),
{
    let ghost v = items@.map_values(|s: String| s@);
    let mut out = String::new();
    let mut i: usize = 0;
    while i < items.len()
        invariant
            0 <= i <= items@.len(),
            v == items@.map_values(|s: String| s@),
            out@ == joined(v.take(i as int), sep@),
        decreases items@.len() - i,
    {
        assert(v.take(i + 1).drop_last() =~= v.take(i as int));
        assert(v.take(i + 1).last() == items@[i as int]@);
        if i > 0 {
            out.append(sep);
        }
        out.append(items[i].as_str());
        i = i + 1;
    }
    assert(v.take(v.len() as int) =~= v);
    out
}

/// Decimal text of a signed integer: a minus sign before the digits of a negative one.
pub open spec fn i64_digits(n: i64) -> Seq<char> {
    if n < 0 {
        "-"@ + u64_digits((-n) as nat)
    } else {
        u64_digits(n as nat)
    }
}

pub fn i64_to_string(n: i64) -> (r: String)
    ensures
        r@ == i64_digits(n),
{
    if n < 0 {
        let m: u64 = (0i128 - (n as i128)) as u64;
        let mut s = owned("-");
        s.append(u64_to_string(m).as_str());
        s
    } else {
        u64_to_string(n as u64)
    }
}

/// `String::push`: the character appended at the end.
#[verifier::external_body]
pub(crate) fn push_char(s: &mut String, c: char)
    ensures
        final(s)@ == old(s)@.push(c),
{
    s.push(c);
}

/// Text that `str::to_lowercase` gives for `s`.
pub uninterp spec fn str_lowercase(s: Seq<char>) -> Seq<char>;

/// `str::to_lowercase`.
#[verifier::external_body]
pub(crate) fn lowercase(s: &str) -> (r: String)
    ensures
        r@ == str_lowercase(s@),
{
    s.to_lowercase()
}

/// Equality of two texts.
pub fn str_eq(a: &str, b: &str) -> (r: bool)
    ensures
        r == (a@ == b@),
{
    a.to_owned() == b.to_owned()
}

/// Owned copy of a text.
pub fn owned(a: &str) -> (r: String)
    ensures
        r@ == a@,
{
    a.to_owned()
}

/// Copy of a `String`, equal to it.
pub fn copy_string(a: &String) -> (r: String)
    ensures
        r == *a,
        r@ == a@,
{
    a.clone()
}

/// Decimal text of `n`.
pub fn u64_to_string(n: u64) -> (r: String)
    ensures
        r@ == u64_digits(n as nat),
    decreases n,
{
    let d = digit_str(n % 10);
    if n < 10 {
        owned(d)
    } else {
        let mut s = u64_to_string(n / 10);
        s.append(d);
        s
    }
}

fn digit_str(d: u64) -> (r: &'static str)
    requires
        d < 10,
    ensures
        r@ == seq![digit_char(d as nat)],
{
    proof {
        reveal_strlit("0");
        reveal_strlit("1");
        reveal_strlit("2");
        reveal_strlit("3");
        reveal_strlit("4");
        reveal_strlit("5");
        reveal_strlit("6");
        reveal_strlit("7");
        reveal_strlit("8");
        reveal_strlit("9");
    }
    if d == 0 {
        "0"
    } else if d == 1 {
        "1"
    } else if d == 2 {
        "2"
    } else if d == 3 {
        "3"
    } else if d == 4 {
        "4"
    } else if d == 5 {
        "5"
    } else if d == 6 {
        "6"
    } else if d == 7 {
        "7"
    } else if d == 8 {
        "8"
    } else {
        "9"
    }
}

/// Lowercase hexadecimal digit of `d` (below 16).
pub open spec fn hex_digit_char(d: int) -> char {
    if d < 10 {
        (48 + d) as char
    } else {
        (87 + d) as char
    }
}

/// How a JSON string writes one character: `"` and `\` behind a backslash,
/// the five control characters with a short escape as `\b \t \n \f \r`,
/// the other control characters below 0x20 as `\u00` and two lowercase hex
/// digits, every other character as itself.
pub open spec fn json_char(c: char) -> Seq<char> {
    let n = c as int;
    if c == '"' {
        seq!['\\', '"']
    } else if c == '\\' {
        seq!['\\', '\\']
    } else if n == 0x08 {
        seq!['\\', 'b']
    } else if n == 0x09 {
        seq!['\\', 't']
    } else if n == 0x0a {
        seq!['\\', 'n']
    } else if n == 0x0c {
        seq!['\\', 'f']
    } else if n == 0x0d {
        seq!['\\', 'r']
    } else if n < 0x20 {
        seq!['\\', 'u', '0', '0', hex_digit_char(n / 16), hex_digit_char(n % 16)]
    } else {
        seq![c]
    }
}

/// The characters of `s`, each written as a JSON string writes it.
pub open spec fn json_escaped(s: Seq<char>) -> Seq<char>
    decreases s.len(),
{
    if s.len() == 0 {
        Seq::empty()
    } else {
        json_escaped(s.drop_last()) + json_char(s.last())
    }
}

/// Text that `serde_json::to_string` writes for a string: the escaped
/// characters between double quotes.
pub open spec fn json_str(s: Seq<char>) -> Seq<char> {
    seq!['"'] + json_escaped(s) + seq!['"']
}

/// `serde_json::to_string` of a string, which cannot fail.
#[verifier::external_body]
pub(crate) fn json_quote(s: &str) -> (r: String)
    ensures
        r@ == json_str(s@),
{
    serde_json::to_string(s).unwrap_or_default()
}

} // verus!
