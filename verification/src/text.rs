//! Text helpers: the hyphenated form of identifiers, the decimal form of
//! integers, and the few string operations the rest of the library builds on.
use vstd::prelude::*;
use vstd::string::StringExecFns;

verus! {

/// Appends one character to a string (std's `String::push`).
#[verifier::external_body]
pub(crate) fn push_char(s: &mut String, c: char)
    ensures
        final(s)@ == old(s)@.push(c),
{
    s.push(c);
}

/// Whether two string slices hold the same characters.
pub(crate) fn str_eq(a: &str, b: &str) -> (equal: bool)
    ensures
        equal == (a@ == b@),
{
    let a_owned = a.to_owned();
    let b_owned = b.to_owned();
    a_owned == b_owned
}

/// The lowercase hexadecimal digit for a value below sixteen.
pub open spec fn hex_digit(d: int) -> char {
    if d < 10 {
        (48 + d) as char
    } else {
        (87 + d) as char
    }
}

/// The `k`-th hexadecimal digit of a 128-bit identifier, counted from the most
/// significant one (`k` runs from 0 to 31).
pub open spec fn nibble(id: u128, k: int) -> u128 {
    (id >> ((124 - 4 * k) as u128)) & 15u128
}

/// Position of the hexadecimal digit shown at column `j` of the hyphenated form.
pub open spec fn digit_at_column(j: int) -> int {
    if j < 8 {
        j
    } else if j < 13 {
        j - 1
    } else if j < 18 {
        j - 2
    } else if j < 23 {
        j - 3
    } else {
        j - 4
    }
}

/// Whether column `j` of the hyphenated form holds a hyphen.
pub open spec fn is_hyphen_column(j: int) -> bool {
    j == 8 || j == 13 || j == 18 || j == 23
}

/// The hyphenated lowercase form `xxxxxxxx-xxxx-xxxx-xxxx-xxxxxxxxxxxx` of an
/// identifier, most significant digit first.
pub open spec fn uuid_text(id: u128) -> Seq<char> {
    Seq::new(
        36,
        |j: int|
            if is_hyphen_column(j) {
                '-'
            } else {
                hex_digit(nibble(id, digit_at_column(j)) as int)
            },
    )
}

fn hex_char(d: u128) -> (c: char)
    requires
        d < 16,
    ensures
        c == hex_digit(d as int),
{
    let b: u8 = d as u8;
    if b < 10 {
        (48u8 + b) as char
    } else {
        (87u8 + b) as char
    }
}

/// Renders an identifier in its hyphenated lowercase form.
pub fn uuid_to_string(id: u128) -> (s: String)
    ensures
        s@ == uuid_text(id),
{
    let mut s = String::new();
    let mut j: u128 = 0;
    while j < 36
        invariant
            j <= 36,
            s@ =~= uuid_text(id).take(j as int),
        decreases 36 - j,
    {
        if j == 8 || j == 13 || j == 18 || j == 23 {
            push_char(&mut s, '-');
        } else {
            let k: u128 = if j < 8 {
                j
            } else if j < 13 {
                j - 1
            } else if j < 18 {
                j - 2
            } else if j < 23 {
                j - 3
            } else {
                j - 4
            };
            let shift: u128 = 124 - 4 * k;
            let d = (id >> shift) & 15u128;
            assert(d < 16) by (bit_vector)
                requires
                    d == (id >> shift) & 15u128,
            ;
            push_char(&mut s, hex_char(d));
        }
        assert(uuid_text(id).take(j + 1) =~= uuid_text(id).take(j as int).push(
            uuid_text(id)[j as int],
        ));
        j = j + 1;
    }
    assert(uuid_text(id).take(36) =~= uuid_text(id));
    s
}

/// The decimal digit character for a value below ten.
pub open spec fn digit_char(d: nat) -> char {
    (48 + d) as char
}

/// The decimal digits of a natural number, without leading zeros.
pub open spec fn decimal_digits(n: nat) -> Seq<char>
    decreases n,
{
    if n < 10 {
        seq![digit_char(n)]
    } else {
        decimal_digits(n / 10).push(digit_char(n % 10))
    }
}

/// The decimal form of a 32-bit signed integer, with a leading minus sign when negative.
pub open spec fn i32_text(v: i32) -> Seq<char> {
    if v < 0 {
        seq!['-'] + decimal_digits((-v) as nat)
    } else {
        decimal_digits(v as nat)
    }
}

fn push_decimal(s: &mut String, n: u32)
    ensures
        final(s)@ == old(s)@ + decimal_digits(n as nat),
    decreases n,
{
    if n >= 10 {
        push_decimal(s, n / 10);
    }
    let d: u8 = (n % 10) as u8;
    push_char(s, (48u8 + d) as char);
    assert(old(s)@ + decimal_digits(n as nat) =~= final(s)@) by {
        if n >= 10 {
            assert(decimal_digits(n as nat) == decimal_digits((n / 10) as nat).push(
                digit_char((n % 10) as nat),
            ));
        }
    }
}

/// Renders a 32-bit signed integer in decimal.
pub fn i32_to_string(v: i32) -> (s: String)
    ensures
        s@ == i32_text(v),
{
    let mut s = String::new();
    if v < 0 {
        push_char(&mut s, '-');
        let magnitude: u32 = (-(v as i64)) as u32;
        push_decimal(&mut s, magnitude);
    } else {
        push_decimal(&mut s, v as u32);
    }
    s
}

/// Joins a prefix and the hyphenated form of an identifier, as `format!("{prefix}{id}")` does.
pub fn prefixed_uuid(prefix: &str, id: u128) -> (s: String)
    ensures
        s@ == prefix@ + uuid_text(id),
{
    let mut s = prefix.to_string();
    let t = uuid_to_string(id);
    s.append(t.as_str());
    s
}

} // verus!
