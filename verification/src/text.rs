//! Decimal numbers as text: reading what was typed into a field, and writing
//! a number for display.

use vstd::prelude::*;
use vstd::string::*;

verus! {

/// The characters that count as white space: those with the Unicode property
/// `White_Space`.
pub open spec fn is_space(c: char) -> bool {
    let u = c as u32;
    ||| 0x09 <= u <= 0x0D
    ||| u == 0x20
    ||| u == 0x85
    ||| u == 0xA0
    ||| u == 0x1680
    ||| 0x2000 <= u <= 0x200A
    ||| u == 0x2028
    ||| u == 0x2029
    ||| u == 0x202F
    ||| u == 0x205F
    ||| u == 0x3000
}

/// Whether `c` is one of the ten decimal digits.
pub open spec fn is_digit(c: char) -> bool {
    '0' <= c <= '9'
}

/// The number that the digit `c` stands for; zero for any other character.
pub open spec fn digit_value(c: char) -> nat {
    if is_digit(c) {
        (c as u32 - '0' as u32) as nat
    } else {
        0
    }
}

/// The digit that stands for `d`, for `d` below ten.
pub open spec fn digit_char(d: nat) -> char {
    (d + '0' as u32) as char
}

/// `s` without the white space at its front.
pub open spec fn trim_start(s: Seq<char>) -> Seq<char>
    decreases s.len(),
{
    if s.len() > 0 && is_space(s[0]) {
        trim_start(s.skip(1))
    } else {
        s
    }
}

/// `s` without the white space at its back.
pub open spec fn trim_end(s: Seq<char>) -> Seq<char>
    decreases s.len(),
{
    if s.len() > 0 && is_space(s.last()) {
        trim_end(s.drop_last())
    } else {
        s
    }
}

/// `s` without the white space at either end.
pub open spec fn trim(s: Seq<char>) -> Seq<char> {
    trim_end(trim_start(s))
}

/// Whether `s` holds decimal digits and nothing else.
pub open spec fn all_digits(s: Seq<char>) -> bool {
    forall|i: int| 0 <= i < s.len() ==> is_digit(#[trigger] s[i])
}

/// The number that the digits of `s` write, most significant digit first.
pub open spec fn digits_value(s: Seq<char>) -> nat
    decreases s.len(),
{
    if s.len() == 0 {
        0
    } else {
        10 * digits_value(s.drop_last()) + digit_value(s.last())
    }
}

/// The number that `s` writes, if `s` is one or more decimal digits, with
/// or without a plus sign before them, and the number is at most `max`.
pub open spec fn parse_unsigned(s: Seq<char>, max: nat) -> Option<nat> {
    let digits = if s.len() > 0 && s[0] == '+' {
        s.skip(1)
    } else {
        s
    };
    if digits.len() > 0 && all_digits(digits) && digits_value(digits) <= max {
        Some(digits_value(digits))
    } else {
        None
    }
}

/// The number entered in a field that holds `s`: white space round it does
/// not count.
pub open spec fn field_value(s: Seq<char>, max: nat) -> Option<nat> {
    parse_unsigned(trim(s), max)
}

/// `n` in decimal digits, without leading zeros.
pub open spec fn decimal(n: nat) -> Seq<char>
    decreases n,
{
    if n < 10 {
        seq![digit_char(n)]
    } else {
        decimal(n / 10).push(digit_char(n % 10))
    }
}

/// `n` in decimal digits, with a zero in front where it has only one.
pub open spec fn two_digits(n: nat) -> Seq<char> {
    if n < 10 {
        seq!['0'].push(digit_char(n))
    } else {
        decimal(n)
    }
}

/// A number is at least the number that its leading digits write.
pub proof fn lemma_digits_value_grows(s: Seq<char>, k: int)
    requires
        0 <= k <= s.len(),
    ensures
        digits_value(s.take(k)) <= digits_value(s),
    decreases s.len(),
{
    if k == s.len() {
        assert(s.take(k) =~= s);
    } else {
        lemma_digits_value_grows(s.drop_last(), k);
        assert(s.drop_last().take(k) =~= s.take(k));
    }
}

/// What `decimal` writes is read back as the same number: the text consists
/// of digits alone and their value is `n`.
pub proof fn lemma_decimal_reads_back(n: nat)
    ensures
        decimal(n).len() > 0,
        all_digits(decimal(n)),
        digits_value(decimal(n)) == n,
    decreases n,
{
    reveal_with_fuel(digits_value, 2);
    if n >= 10 {
        lemma_decimal_reads_back(n / 10);
        assert(decimal(n).drop_last() =~= decimal(n / 10));
    }
}

/// Text that neither starts nor ends with white space is its own trimmed
/// form.
pub proof fn lemma_trim_keeps_tight_text(s: Seq<char>)
    requires
        s.len() > 0 ==> !is_space(s[0]) && !is_space(s.last()),
    ensures
        trim(s) == s,
{
}

/// A number written by `decimal` and entered in a field is read as that
/// number, whenever the field takes numbers that large.
pub proof fn lemma_field_reads_decimal(n: nat, max: nat)
    ensures
        field_value(decimal(n), max) == if n <= max {
            Some(n)
        } else {
            None
        },
{
    lemma_decimal_reads_back(n);
    lemma_trim_keeps_tight_text(decimal(n));
}

/// Whether `c` is white space.
pub fn char_is_space(c: char) -> (space: bool)
    ensures
        space == is_space(c),
{
    let u: u32 = c as u32;
    (0x09 <= u && u <= 0x0D) || u == 0x20 || u == 0x85 || u == 0xA0 || u == 0x1680 || (0x2000 <= u
        && u <= 0x200A) || u == 0x2028 || u == 0x2029 || u == 0x202F || u == 0x205F || u == 0x3000
}

/// Whether `c` is a decimal digit.
pub fn char_is_digit(c: char) -> (digit: bool)
    ensures
        digit == is_digit(c),
{
    '0' <= c && c <= '9'
}

/// Where the text of `s` begins and ends once the white space round it is
/// left out, counted in characters.
fn trimmed_bounds(s: &str) -> (bounds: (usize, usize))
    ensures
        bounds.0 <= bounds.1 <= s@.len(),
        trim(s@) == s@.subrange(bounds.0 as int, bounds.1 as int),
{
    let n = s.unicode_len();
    let mut start: usize = 0;
    let mut found = false;
    assert(s@.subrange(0, n as int) =~= s@);
    while !found && start < n
        invariant
            n == s@.len(),
            start <= n,
            trim_start(s@) == trim_start(s@.subrange(start as int, n as int)),
            found ==> start < n && !is_space(s@[start as int]),
        decreases (n - start) + (if found { 0int } else { 1int }),
    {
        if char_is_space(s.get_char(start)) {
            assert(s@.subrange(start as int, n as int).skip(1) =~= s@.subrange(
                start as int + 1,
                n as int,
            ));
            start += 1;
        } else {
            found = true;
        }
    }
    let ghost front = s@.subrange(start as int, n as int);
    let mut end: usize = n;
    let mut found = false;
    while !found && start < end
        invariant
            n == s@.len(),
            start <= end <= n,
            trim_end(front) == trim_end(s@.subrange(start as int, end as int)),
            found ==> start < end && !is_space(s@[end as int - 1]),
        decreases (end - start) + (if found { 0int } else { 1int }),
    {
        if char_is_space(s.get_char(end - 1)) {
            assert(s@.subrange(start as int, end as int).drop_last() =~= s@.subrange(
                start as int,
                end as int - 1,
            ));
            end -= 1;
        } else {
            found = true;
        }
    }
    (start, end)
}

/// Reads the number entered in a text field. White space round the number
/// is passed over. The rest must be decimal digits, at least one, with or
/// without a plus sign in front, and must write a number of at most `max`:
/// else there is no number.
pub fn parse_field(s: &str, max: u64) -> (value: Option<u64>)
    ensures
        match value {
            Some(v) => field_value(s@, max as nat) == Some(v as nat),
            None => field_value(s@, max as nat) is None,
        },
{
    let (start, end) = trimmed_bounds(s);
    let ghost body = s@.subrange(start as int, end as int);
    let mut i: usize = start;
    if i < end && s.get_char(i) == '+' {
        i += 1;
    }
    let first: usize = i;
    let ghost digits = s@.subrange(first as int, end as int);
    assert(digits =~= if body.len() > 0 && body[0] == '+' {
        body.skip(1)
    } else {
        body
    });
    if first == end {
        return None;
    }
    let mut acc: u64 = 0;
    while i < end
        invariant
            first <= i <= end <= s@.len(),
            digits == s@.subrange(first as int, end as int),
            field_value(s@, max as nat) == if digits.len() > 0 && all_digits(digits)
                && digits_value(digits) <= max {
                Some(digits_value(digits))
            } else {
                None
            },
            all_digits(digits.take(i - first)),
            acc == digits_value(digits.take(i - first)),
            acc <= max,
        decreases end - i,
    {
        let c = s.get_char(i);
        let ghost k = i - first;
        assert(digits.take(k + 1).drop_last() =~= digits.take(k));
        if !char_is_digit(c) {
            assert(!is_digit(digits[k]));
            return None;
        }
        let d: u64 = (c as u32 - '0' as u32) as u64;
        if d > max || acc > (max - d) / 10 {
            proof {
                lemma_digits_value_grows(digits, k + 1);
            }
            return None;
        }
        acc = acc * 10 + d;
        i += 1;
    }
    assert(digits.take(i - first) =~= digits);
    Some(acc)
}

/// The text of one decimal digit.
fn digit_str(d: u8) -> (text: &'static str)
    requires
        d < 10,
    ensures
        text@ == seq![digit_char(d as nat)],
{
    proof {
        reveal_strlit("0");
        reveal_strlit("1");
        reveal_strlit("2");
        reveal_strlit("3");
        reveal_strlit("4");
        reveal_strlit("5");
        reveal_strlit("6");
        reveal_strlit("7");
        reveal_strlit("8");
        reveal_strlit("9");
    }
    let text = match d {
        0 => "0",
        1 => "1",
        2 => "2",
        3 => "3",
        4 => "4",
        5 => "5",
        6 => "6",
        7 => "7",
        8 => "8",
        _ => "9",
    };
    text
}

/// Writes `n` in decimal digits, without leading zeros.
pub fn decimal_string(n: u128) -> (text: String)
    ensures
        text@ == decimal(n as nat),
    decreases n,
{
    if n < 10 {
        digit_str(n as u8).to_owned()
    } else {
        let mut text = decimal_string(n / 10);
        text.append(digit_str((n % 10) as u8));
        text
    }
}

/// Writes `n` in decimal digits, with a zero in front where it has only
/// one.
pub fn two_digit_string(n: u128) -> (text: String)
    ensures
        text@ == two_digits(n as nat),
{
    if n < 10 {
        let mut text = digit_str(0).to_owned();
        text.append(digit_str(n as u8));
        text
    } else {
        decimal_string(n)
    }
}

} // verus!
