//! Numbers written as text: decimal and hexadecimal unsigned integers, and signed decimals.
use vstd::prelude::*;
use vstd::string::StrSliceExecFns;
use vstd::string::StringExecFns;

verus! {

/// The value of a digit character: 0-9, then a-z and A-Z from 10; 36 for any other character.
pub open spec fn digit_value(c: char) -> nat {
    if '0' <= c && c <= '9' {
        (c as int - '0' as int) as nat
    } else if 'a' <= c && c <= 'z' {
        (c as int - 'a' as int + 10) as nat
    } else if 'A' <= c && c <= 'Z' {
        (c as int - 'A' as int + 10) as nat
    } else {
        36
    }
}

/// Every character of `s` is a digit of the radix.
pub open spec fn all_digits(s: Seq<char>, radix: nat) -> bool {
    forall|i: int| 0 <= i < s.len() ==> digit_value(#[trigger] s[i]) < radix
}

/// The number that the digits of `s` write in the radix, most significant first.
pub open spec fn digits_value(s: Seq<char>, radix: nat) -> nat
    decreases s.len(),
{
    if s.len() == 0 {
        0
    } else {
        digits_value(s.drop_last(), radix) * radix + digit_value(s.last())
    }
}

/// The number written by one or more digits of the radix, when it is at most `max`.
pub open spec fn digits_number(s: Seq<char>, radix: nat, max: nat) -> Option<nat> {
    if s.len() > 0 && all_digits(s, radix) && digits_value(s, radix) <= max {
        Some(digits_value(s, radix))
    } else {
        None
    }
}

/// An unsigned integer in a radix: an optional `+`, then one or more digits, of a value at most
/// `max`.
pub open spec fn parse_unsigned(s: Seq<char>, radix: nat, max: nat) -> Option<nat> {
    if s.len() > 0 && s[0] == '+' {
        digits_number(s.drop_first(), radix, max)
    } else {
        digits_number(s, radix, max)
    }
}

/// Text that starts with `0x` or `0X`.
pub open spec fn has_hex_prefix(s: Seq<char>) -> bool {
    s.len() >= 2 && s[0] == '0' && (s[1] == 'x' || s[1] == 'X')
}

/// An unsigned integer written in hexadecimal after a `0x` or `0X` prefix, or else in decimal.
pub open spec fn maybe_hex_number(s: Seq<char>, max: nat) -> Option<nat> {
    if has_hex_prefix(s) {
        parse_unsigned(s.skip(2), 16, max)
    } else {
        parse_unsigned(s, 10, max)
    }
}

/// A decimal integer with an optional sign, taken when its value lies in `[min, max]`.
pub open spec fn parse_signed(s: Seq<char>, min: int, max: int) -> Option<int> {
    let signed = s.len() > 0 && (s[0] == '+' || s[0] == '-');
    let digits = if signed { s.drop_first() } else { s };
    let magnitude = digits_value(digits, 10) as int;
    let value = if s.len() > 0 && s[0] == '-' { -magnitude } else { magnitude };
    if digits.len() > 0 && all_digits(digits, 10) && min <= value <= max {
        Some(value)
    } else {
        None
    }
}

/// Returns the value of a digit character, or 36 for a character that is no digit.
pub fn digit_of(c: char) -> (d: u32)
    ensures
        d == digit_value(c),
{
    if '0' <= c && c <= '9' {
        (c as u32) - ('0' as u32)
    } else if 'a' <= c && c <= 'z' {
        (c as u32) - ('a' as u32) + 10
    } else if 'A' <= c && c <= 'Z' {
        (c as u32) - ('A' as u32) + 10
    } else {
        36
    }
}

proof fn lemma_digits_step(s: Seq<char>, start: int, i: int, radix: nat)
    requires
        0 <= start <= i < s.len(),
    ensures
        digits_value(s.subrange(start, i + 1), radix) == digits_value(s.subrange(start, i), radix) * radix
            + digit_value(s[i]),
{
    assert(s.subrange(start, i + 1).drop_last() =~= s.subrange(start, i));
}

proof fn lemma_grows(v: nat, radix: nat, d: nat)
    requires
        radix >= 1,
    ensures
        v * radix + d >= v,
{
    assert(v * radix >= v) by (nonlinear_arith)
        requires
            radix >= 1,
    ;
}

/// Reads the characters of `s` from `start` on as digits of the radix.
pub fn parse_digits(s: &str, start: usize, radix: u32, max: u64) -> (r: Option<u64>)
    requires
        start <= s@.len(),
        2 <= radix <= 36,
    ensures
        r matches Some(v) ==> digits_number(s@.skip(start as int), radix as nat, max as nat) == Some(v as nat),
        r is None ==> digits_number(s@.skip(start as int), radix as nat, max as nat) is None,
{
    let n = s.unicode_len();
    if start == n {
        return None;
    }
    let ghost text = s@;
    let mut acc: u64 = 0;
    let mut over = false;
    let mut i = start;
    assert(text.subrange(start as int, start as int).len() == 0);
    while i < n
        invariant
            start <= i <= n,
            n == text.len(),
            text == s@,
            2 <= radix <= 36,
            all_digits(text.subrange(start as int, i as int), radix as nat),
            over ==> digits_value(text.subrange(start as int, i as int), radix as nat) > max,
            !over ==> acc == digits_value(text.subrange(start as int, i as int), radix as nat),
            !over ==> acc <= max,
        decreases n - i,
    {
        let c = s.get_char(i);
        let d = digit_of(c);
        if d >= radix {
            assert(text.skip(start as int)[i - start] == c);
            return None;
        }
        proof {
            lemma_digits_step(text, start as int, i as int, radix as nat);
            lemma_grows(digits_value(text.subrange(start as int, i as int), radix as nat), radix as nat, d as nat);
            assert forall|k: int| 0 <= k < text.subrange(start as int, i + 1).len() implies digit_value(
                #[trigger] text.subrange(start as int, i + 1)[k],
            ) < radix by {
                if k < i - start {
                    assert(text.subrange(start as int, i + 1)[k] == text.subrange(start as int, i as int)[k]);
                }
            }
        }
        if !over {
            assert(acc as u128 * radix as u128 <= 0xffff_ffff_ffff_ffffu128 * 36u128) by (nonlinear_arith)
                requires
                    radix <= 36,
            ;
            let next: u128 = acc as u128 * radix as u128 + d as u128;
            if next > max as u128 {
                over = true;
            } else {
                acc = next as u64;
            }
        }
        i = i + 1;
    }
    assert(text.subrange(start as int, n as int) =~= text.skip(start as int));
    assert(s@.skip(start as int).len() > 0);
    assert(all_digits(s@.skip(start as int), radix as nat));
    if over {
        None
    } else {
        Some(acc)
    }
}

/// Reads an unsigned integer in a radix: an optional `+`, then digits, of a value at most `max`.
pub fn parse_unsigned_text(s: &str, radix: u32, max: u64) -> (r: Option<u64>)
    requires
        2 <= radix <= 36,
    ensures
        r matches Some(v) ==> parse_unsigned(s@, radix as nat, max as nat) == Some(v as nat),
        r is None ==> parse_unsigned(s@, radix as nat, max as nat) is None,
{
    let n = s.unicode_len();
    if n > 0 && s.get_char(0) == '+' {
        assert(s@.drop_first() =~= s@.skip(1));
        parse_digits(s, 1, radix, max)
    } else {
        assert(s@ =~= s@.skip(0));
        parse_digits(s, 0, radix, max)
    }
}

/// Reads a decimal integer with an optional sign whose value lies in `[min, max]`, for bounds
/// within the range of `i64`.
pub fn parse_signed_text(s: &str, min: i64, max: i64) -> (r: Option<i64>)
    requires
        min <= max,
    ensures
        r matches Some(v) ==> parse_signed(s@, min as int, max as int) == Some(v as int),
        r is None ==> parse_signed(s@, min as int, max as int) is None,
{
    let n = s.unicode_len();
    let first = if n > 0 { s.get_char(0) } else { ' ' };
    let signed = n > 0 && (first == '+' || first == '-');
    let negative = n > 0 && first == '-';
    let start: usize = if signed { 1 } else { 0 };
    assert(s@.skip(start as int) =~= (if signed { s@.drop_first() } else { s@ }));
    let limit: u64 = if negative {
        if min >= 0 {
            0
        } else {
            ((-(min + 1)) as u64) + 1
        }
    } else {
        if max < 0 {
            0
        } else {
            max as u64
        }
    };
    match parse_digits(s, start, 10, limit) {
        None => {
            assert(parse_signed(s@, min as int, max as int) is None);
            None
        },
        Some(m) => {
            if negative {
                // m <= -min, so -m fits in i64
                let v: i64 = if m == 0 {
                    0
                } else {
                    -(((m - 1) as i64)) - 1
                };
                if v < min || v > max {
                    None
                } else {
                    Some(v)
                }
            } else {
                let v: i64 = m as i64;
                if v < min || v > max {
                    None
                } else {
                    Some(v)
                }
            }
        },
    }
}

/// Compares two strings character by character.
pub fn str_eq(a: &str, b: &str) -> (r: bool)
    ensures
        r == (a@ == b@),
{
    let n = a.unicode_len();
    let m = b.unicode_len();
    if n != m {
        return false;
    }
    let mut i: usize = 0;
    while i < n
        invariant
            i <= n,
            n == a@.len(),
            m == b@.len(),
            n == m,
            forall|k: int| 0 <= k < i ==> a@[k] == b@[k],
        decreases n - i,
    {
        if a.get_char(i) != b.get_char(i) {
            return false;
        }
        i = i + 1;
    }
    assert(a@ =~= b@);
    true
}


/// The character of a decimal digit.
pub open spec fn digit_char(d: nat) -> char {
    if d == 0 {
        '0'
    } else if d == 1 {
        '1'
    } else if d == 2 {
        '2'
    } else if d == 3 {
        '3'
    } else if d == 4 {
        '4'
    } else if d == 5 {
        '5'
    } else if d == 6 {
        '6'
    } else if d == 7 {
        '7'
    } else if d == 8 {
        '8'
    } else {
        '9'
    }
}

/// The decimal text of a number, without leading zeros.
pub open spec fn decimal_text(n: nat) -> Seq<char>
    decreases n,
{
    if n < 10 {
        seq![digit_char(n)]
    } else {
        decimal_text(n / 10).push(digit_char(n % 10))
    }
}

/// Returns the text of a decimal digit.
fn digit_str(d: usize) -> (r: &'static str)
    requires
        d < 10,
    ensures
        r@ == seq![digit_char(d as nat)],
{
    proof {
        reveal_strlit("0");
        reveal_strlit("1");
        reveal_strlit("2");
        reveal_strlit("3");
        reveal_strlit("4");
        reveal_strlit("5");
        reveal_strlit("6");
        reveal_strlit("7");
        reveal_strlit("8");
        reveal_strlit("9");
    }
    match d {
        0 => "0",
        1 => "1",
        2 => "2",
        3 => "3",
        4 => "4",
        5 => "5",
        6 => "6",
        7 => "7",
        8 => "8",
        _ => "9",
    }
}

/// Returns the decimal text of a number.
pub fn decimal(n: usize) -> (r: String)
    ensures
        r@ == decimal_text(n as nat),
    decreases n,
{
    if n < 10 {
        String::from_str(digit_str(n))
    } else {
        let mut s = decimal(n / 10);
        s.append(digit_str(n % 10));
        s
    }
}

/// The character of a hexadecimal digit, in lower case.
pub open spec fn hex_digit_char(d: nat) -> char {
    if d < 10 {
        digit_char(d)
    } else if d == 10 {
        'a'
    } else if d == 11 {
        'b'
    } else if d == 12 {
        'c'
    } else if d == 13 {
        'd'
    } else if d == 14 {
        'e'
    } else {
        'f'
    }
}

/// The lower-case hexadecimal text of a number, without leading zeros or prefix.
pub open spec fn hex_text(n: nat) -> Seq<char>
    decreases n,
{
    if n < 16 {
        seq![hex_digit_char(n)]
    } else {
        hex_text(n / 16).push(hex_digit_char(n % 16))
    }
}

/// Returns the text of a hexadecimal digit.
fn hex_digit_str(d: usize) -> (r: &'static str)
    requires
        d < 16,
    ensures
        r@ == seq![hex_digit_char(d as nat)],
{
    proof {
        reveal_strlit("a");
        reveal_strlit("b");
        reveal_strlit("c");
        reveal_strlit("d");
        reveal_strlit("e");
        reveal_strlit("f");
    }
    match d {
        10 => "a",
        11 => "b",
        12 => "c",
        13 => "d",
        14 => "e",
        15 => "f",
        _ => digit_str(d),
    }
}

/// Returns the lower-case hexadecimal text of a number.
pub fn hex(n: usize) -> (r: String)
    ensures
        r@ == hex_text(n as nat),
    decreases n,
{
    if n < 16 {
        String::from_str(hex_digit_str(n))
    } else {
        let mut s = hex(n / 16);
        s.append(hex_digit_str(n % 16));
        s
    }
}

/// A digit character reads back as its digit.
proof fn lemma_digit_char_value(d: nat)
    requires
        d < 16,
    ensures
        d < 10 ==> digit_value(digit_char(d)) == d,
        digit_value(hex_digit_char(d)) == d,
{
}

/// The decimal text of a number is one or more decimal digits that read back as the number.
pub proof fn lemma_decimal_text_reads_back(n: nat)
    ensures
        decimal_text(n).len() > 0,
        all_digits(decimal_text(n), 10),
        digits_value(decimal_text(n), 10) == n,
    decreases n,
{
    let t = decimal_text(n);
    lemma_digit_char_value(n % 10);
    if n >= 10 {
        lemma_decimal_text_reads_back(n / 10);
        assert(t.drop_last() =~= decimal_text(n / 10));
        assert(t.last() == digit_char(n % 10));
        assert(digits_value(t, 10) == digits_value(decimal_text(n / 10), 10) * 10 + digit_value(digit_char(n % 10)));
        assert(n == (n / 10) * 10 + n % 10) by (nonlinear_arith);
        assert(all_digits(t, 10)) by {
            assert forall|i: int| 0 <= i < t.len() implies digit_value(#[trigger] t[i]) < 10 by {
                if i < t.len() - 1 {
                    assert(t[i] == decimal_text(n / 10)[i]);
                }
            }
        }
    } else {
        assert(t.drop_last() =~= Seq::<char>::empty());
        assert(n % 10 == n);
        assert(digits_value(t, 10) == digits_value(Seq::<char>::empty(), 10) * 10 + digit_value(t.last()));
    }
}

/// The hexadecimal text of a number is one or more hexadecimal digits that read back as the
/// number.
pub proof fn lemma_hex_text_reads_back(n: nat)
    ensures
        hex_text(n).len() > 0,
        all_digits(hex_text(n), 16),
        digits_value(hex_text(n), 16) == n,
    decreases n,
{
    let t = hex_text(n);
    lemma_digit_char_value(n % 16);
    if n >= 16 {
        lemma_hex_text_reads_back(n / 16);
        assert(t.drop_last() =~= hex_text(n / 16));
        assert(t.last() == hex_digit_char(n % 16));
        assert(digits_value(t, 16) == digits_value(hex_text(n / 16), 16) * 16 + digit_value(hex_digit_char(n % 16)));
        assert(n == (n / 16) * 16 + n % 16) by (nonlinear_arith);
        assert(all_digits(t, 16)) by {
            assert forall|i: int| 0 <= i < t.len() implies digit_value(#[trigger] t[i]) < 16 by {
                if i < t.len() - 1 {
                    assert(t[i] == hex_text(n / 16)[i]);
                }
            }
        }
    } else {
        assert(t.drop_last() =~= Seq::<char>::empty());
        assert(n % 16 == n);
        assert(digits_value(t, 16) == digits_value(Seq::<char>::empty(), 16) * 16 + digit_value(t.last()));
    }
}

} // verus!
