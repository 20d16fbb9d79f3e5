//! Text building blocks: decimal and hexadecimal rendering, joining and
//! character replacement, each with its mathematical counterpart.
use vstd::prelude::*;

verus! {

/// `String::push` of the standard library.
///
/// Trusted: the string afterwards is the string before with the given
/// character at its end.
pub assume_specification[ String::push ](s: &mut String, c: char)
    ensures
        final(s)@ == old(s)@.push(c),
;

/// The views of a sequence of strings, in order.
pub open spec fn texts(items: Seq<String>) -> Seq<Seq<char>> {
    items.map_values(|s: String| s@)
}

/// The view of an optional string.
pub open spec fn opt_text(item: Option<String>) -> Option<Seq<char>> {
    match item {
        Some(s) => Some(s@),
        None => None,
    }
}

/// The view of an optional string slice.
pub open spec fn opt_str(item: Option<&str>) -> Option<Seq<char>> {
    match item {
        Some(s) => Some(s@),
        None => None,
    }
}

/// The character that writes the decimal digit `d`.
pub open spec fn digit(d: nat) -> char
    recommends
        d < 10,
{
    (48 + d) as char
}

/// The decimal numeral of `n`, without sign or leading zeros.
pub open spec fn decimal(n: nat) -> Seq<char>
    decreases n,
{
    if n < 10 {
        seq![digit(n)]
    } else {
        decimal(n / 10).push(digit(n % 10))
    }
}

/// The decimal numeral of `n`, with a leading minus sign when negative.
pub open spec fn signed_decimal(n: int) -> Seq<char> {
    if n < 0 {
        seq!['-'] + decimal((-n) as nat)
    } else {
        decimal(n as nat)
    }
}

/// The character that writes the hexadecimal digit `v` in upper case.
pub open spec fn hex_digit(v: nat) -> char
    recommends
        v < 16,
{
    if v < 10 {
        (48 + v) as char
    } else {
        (55 + v) as char
    }
}

/// Two upper-case hexadecimal digits per byte, high nibble first.
pub open spec fn hex_upper(bytes: Seq<u8>) -> Seq<char> {
    Seq::new(
        2 * bytes.len(),
        |i: int|
            if i % 2 == 0 {
                hex_digit((bytes[i / 2] / 16) as nat)
            } else {
                hex_digit((bytes[i / 2] % 16) as nat)
            },
    )
}

/// The first `n` parts, with `sep` between each two neighbours.
pub open spec fn join_first(parts: Seq<Seq<char>>, sep: Seq<char>, n: nat) -> Seq<char>
    recommends
        n <= parts.len(),
    decreases n,
{
    if n == 0 {
        Seq::empty()
    } else if n == 1 {
        parts[0]
    } else {
        join_first(parts, sep, (n - 1) as nat) + sep + parts[n - 1]
    }
}

/// All parts, with `sep` between each two neighbours.
pub open spec fn join(parts: Seq<Seq<char>>, sep: Seq<char>) -> Seq<char> {
    join_first(parts, sep, parts.len())
}

/// `s` with every occurrence of `from` replaced by `to`.
pub open spec fn replaced(s: Seq<char>, from: char, to: char) -> Seq<char> {
    s.map_values(
        |c: char|
            if c == from {
                to
            } else {
                c
            },
    )
}

/// The first `limit` characters of `s`, or all of `s` when it is shorter.
pub open spec fn prefix(s: Seq<char>, limit: nat) -> Seq<char> {
    if s.len() <= limit {
        s
    } else {
        s.take(limit as int)
    }
}

/// Whether `c` is one of the digits `0` to `9`.
pub open spec fn is_digit(c: char) -> bool {
    '0' <= c <= '9'
}

/// The number that the digit `c` writes; other characters count as zero.
pub open spec fn digit_value(c: char) -> nat {
    if is_digit(c) {
        (c as int - 48) as nat
    } else {
        0
    }
}

/// The number that the decimal digits `digits` write, most significant
/// digit first.
pub open spec fn digits_value(digits: Seq<char>) -> nat
    decreases digits.len(),
{
    if digits.len() == 0 {
        0
    } else {
        digits_value(digits.drop_last()) * 10 + digit_value(digits.last())
    }
}

/// `text` without the plus sign that it may begin with.
pub open spec fn unsigned_part(text: Seq<char>) -> Seq<char> {
    if text.len() > 0 && text[0] == '+' {
        text.drop_first()
    } else {
        text
    }
}

/// The number that `text` writes in decimal: an optional plus sign, then
/// one digit or more and nothing else. Leading zeros are allowed. There
/// is no number where the value does not fit into 64 bits.
pub open spec fn parsed_u64(text: Seq<char>) -> Option<u64> {
    let digits = unsigned_part(text);
    if digits.len() > 0 && (forall|i: int| 0 <= i < digits.len() ==> is_digit(digits[i]))
        && digits_value(digits) <= u64::MAX {
        Some(digits_value(digits) as u64)
    } else {
        None
    }
}

/// Writing more digits behind a numeral never makes its value smaller.
pub proof fn digits_value_grows(digits: Seq<char>, shorter: int)
    requires
        0 <= shorter <= digits.len(),
    ensures
        digits_value(digits.take(shorter)) <= digits_value(digits),
    decreases digits.len() - shorter,
{
    if shorter < digits.len() {
        digits_value_grows(digits, shorter + 1);
        assert(digits.take(shorter + 1).drop_last() =~= digits.take(shorter));
    } else {
        assert(digits.take(shorter) =~= digits);
    }
}

/// Whether `c` is a digit or one of the letters `A` to `F`.
pub open spec fn is_upper_hex(c: char) -> bool {
    ('0' <= c <= '9') || ('A' <= c <= 'F')
}

/// The hexadecimal rendering of any bytes has two characters for each byte,
/// and each of them is an upper-case hexadecimal digit.
pub proof fn hex_upper_is_upper_hex(bytes: Seq<u8>)
    ensures
        hex_upper(bytes).len() == 2 * bytes.len(),
        forall|i: int|
            0 <= i < hex_upper(bytes).len() ==> is_upper_hex(#[trigger] hex_upper(bytes)[i]),
{
    assert forall|i: int| 0 <= i < hex_upper(bytes).len() implies is_upper_hex(
        #[trigger] hex_upper(bytes)[i],
    ) by {
        let byte = bytes[i / 2];
        assert(0 <= byte / 16 < 16);
        assert(0 <= byte % 16 < 16);
    }
}

fn digit_char(d: u8) -> (c: char)
    requires
        d < 10,
    ensures
        c == digit(d as nat),
{
    (48u8 + d) as char
}

fn hex_char(v: u8) -> (c: char)
    requires
        v < 16,
    ensures
        c == hex_digit(v as nat),
{
    if v < 10 {
        (48u8 + v) as char
    } else {
        (55u8 + v) as char
    }
}

/// Writes `n` in decimal.
pub fn to_decimal(n: u64) -> (r: String)
    ensures
        r@ == decimal(n as nat),
    decreases n,
{
    if n < 10 {
        let mut out = String::new();
        out.push(digit_char(n as u8));
        out
    } else {
        let mut out = to_decimal(n / 10);
        out.push(digit_char((n % 10) as u8));
        out
    }
}

/// Writes `n` in decimal, with a minus sign when negative.
pub fn to_signed_decimal(n: i32) -> (r: String)
    ensures
        r@ == signed_decimal(n as int),
{
    if n < 0 {
        let magnitude: u64 = (-(n as i64)) as u64;
        let mut out = String::new();
        out.push('-');
        let digits = to_decimal(magnitude);
        out.append(digits.as_str());
        out
    } else {
        to_decimal(n as u64)
    }
}

/// Writes each byte as two upper-case hexadecimal digits.
pub fn to_hex_upper(bytes: &[u8]) -> (r: String)
    ensures
        r@ == hex_upper(bytes@),
{
    let mut out = String::new();
    let mut i: usize = 0;
    while i < bytes.len()
        invariant
            i <= bytes@.len(),
            out@.len() == 2 * i,
            forall|j: int| 0 <= j < 2 * i ==> out@[j] == hex_upper(bytes@)[j],
        decreases bytes@.len() - i,
    {
        let b: u8 = bytes[i];
        out.push(hex_char(b / 16));
        out.push(hex_char(b % 16));
        i += 1;
    }
    assert(out@ =~= hex_upper(bytes@));
    out
}

/// Joins the first `count` strings of `parts`, or all of them where there
/// are fewer, with `sep` between them.
pub fn join_prefix(parts: &Vec<String>, sep: &str, count: usize) -> (r: String)
    ensures
        r@ == join_first(
            texts(parts@),
            sep@,
            if count <= parts@.len() {
                count as nat
            } else {
                parts@.len()
            },
        ),
{
    let count = if count <= parts.len() {
        count
    } else {
        parts.len()
    };
    let mut out = String::new();
    let mut i: usize = 0;
    while i < count
        invariant
            i <= count <= parts@.len(),
            out@ == join_first(texts(parts@), sep@, i as nat),
        decreases count - i,
    {
        if i > 0 {
            out.append(sep);
        }
        out.append(parts[i].as_str());
        i += 1;
        assert(out@ =~= join_first(texts(parts@), sep@, i as nat));
    }
    out
}

/// Joins all of `parts` with `sep` between them.
pub fn join_all(parts: &Vec<String>, sep: &str) -> (r: String)
    ensures
        r@ == join(texts(parts@), sep@),
{
    join_prefix(parts, sep, parts.len())
}

/// Copies `s`, writing `to` wherever `from` stood.
pub fn replace_char(s: &str, from: char, to: char) -> (r: String)
    ensures
        r@ == replaced(s@, from, to),
{
    broadcast use vstd::string::group_string_axioms;

    let mut out = String::new();
    for c in it: s.chars()
        invariant
            it.seq() == s@,
            out@ == replaced(s@.take(it.index()), from, to),
    {
        if c == from {
            out.push(to);
        } else {
            out.push(c);
        }
        assert(s@.take(it.index() + 1) =~= s@.take(it.index()).push(c));
        assert(out@ =~= replaced(s@.take(it.index() + 1), from, to));
    }
    assert(s@.take(s@.len() as int) =~= s@);
    out
}

/// Reads `text` as a decimal number of 64 bits, as `str::parse::<u64>`
/// does: an optional plus sign, then one digit or more and nothing else.
pub fn parse_u64(text: &str) -> (number: Option<u64>)
    ensures
        number == parsed_u64(text@),
{
    broadcast use vstd::string::group_string_axioms;

    let ghost digits = unsigned_part(text@);
    let ghost skipped: int = text@.len() - digits.len();
    let ghost mut seen: int = 0;
    let mut value: u64 = 0;
    let mut any = false;
    let mut first = true;
    for c in it: text.chars()
        invariant
            it.seq() == text@,
            digits == unsigned_part(text@),
            skipped == text@.len() - digits.len(),
            0 <= skipped <= 1,
            first == (it.index() == 0),
            seen == (if it.index() >= skipped {
                it.index() - skipped
            } else {
                0
            }),
            0 <= seen <= digits.len(),
            any == (seen > 0),
            forall|j: int| 0 <= j < seen ==> is_digit(digits[j]),
            value == digits_value(digits.take(seen)),
    {
        let sign = first && c == '+';
        first = false;
        if !sign {
            assert(digits[seen] == c);
            if c < '0' || c > '9' {
                return None;
            }
            let d: u64 = (c as u32 - 48) as u64;
            proof {
                assert(digits.take(seen + 1).drop_last() =~= digits.take(seen));
                assert(digits_value(digits.take(seen + 1)) == value * 10 + d);
                digits_value_grows(digits, seen + 1);
            }
            if value > (u64::MAX - d) / 10 {
                return None;
            }
            value = value * 10 + d;
            any = true;
            proof {
                seen = seen + 1;
            }
        }
    }
    proof {
        assert(digits.take(seen) =~= digits);
    }
    if any {
        Some(value)
    } else {
        None
    }
}

/// The first `limit` characters of `s`.
pub fn truncate(s: &str, limit: usize) -> (r: &str)
    ensures
        r@ == prefix(s@, limit as nat),
{
    if s.unicode_len() <= limit {
        s
    } else {
        s.substring_char(0, limit)
    }
}

} // verus!
