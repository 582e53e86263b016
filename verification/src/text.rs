//! Decimal numbers as text.

use vstd::prelude::*;

verus! {

/// The character of a decimal digit.
pub open spec fn digit(d: int) -> char {
    ('0' as int + d) as char
}

/// `n` in decimal notation, without leading zeros.
pub open spec fn decimal(n: nat) -> Seq<char>
    decreases n,
{
    if n < 10 {
        seq![digit(n as int)]
    } else {
        decimal(n / 10).push(digit((n % 10) as int))
    }
}

/// The digit `d` as text.
fn digit_text(d: u64) -> (text: &'static str)
    requires
        d < 10,
    ensures
        text@ == seq![digit(d as int)],
{
    proof {
        reveal_strlit("0");
        reveal_strlit("1");
        reveal_strlit("2");
        reveal_strlit("3");
        reveal_strlit("4");
        reveal_strlit("5");
        reveal_strlit("6");
        reveal_strlit("7");
        reveal_strlit("8");
        reveal_strlit("9");
    }
    match d {
        0 => "0",
        1 => "1",
        2 => "2",
        3 => "3",
        4 => "4",
        5 => "5",
        6 => "6",
        7 => "7",
        8 => "8",
        _ => "9",
    }
}

/// Append `n` in decimal notation.
pub fn append_number(text: &mut String, n: u64)
    ensures
        final(text)@ == old(text)@ + decimal(n as nat),
    decreases n,
{
    if n >= 10 {
        append_number(text, n / 10);
    }
    text.append(digit_text(n % 10));
    proof {
        if n >= 10 {
            assert(text@ =~= old(text)@ + decimal((n / 10) as nat).push(digit((n % 10) as int)));
        }
    }
}

/// `before`, then `n` in decimal notation.
pub fn labelled(before: &str, n: u64) -> (text: String)
    ensures
        text@ == before@ + decimal(n as nat),
{
    let mut text = before.to_owned();
    append_number(&mut text, n);
    text
}

/// `before`, then `n` in decimal notation, then `after`.
pub fn numbered(before: &str, n: u64, after: &str) -> (text: String)
    ensures
        text@ == before@ + decimal(n as nat) + after@,
{
    let mut text = labelled(before, n);
    text.append(after);
    text
}

/// A decimal digit.
pub open spec fn is_digit(c: char) -> bool {
    '0' <= c <= '9'
}

/// All characters are decimal digits.
pub open spec fn all_digits(s: Seq<char>) -> bool {
    forall|i: int| 0 <= i < s.len() ==> is_digit(#[trigger] s[i])
}

/// The number that a run of decimal digits stands for.
pub open spec fn value(s: Seq<char>) -> nat
    decreases s.len(),
{
    if s.len() == 0 {
        0
    } else {
        (10 * value(s.drop_last()) + (s.last() as int - '0' as int)) as nat
    }
}

/// `s` without a leading plus sign.
pub open spec fn unsigned(s: Seq<char>) -> Seq<char> {
    if s.len() > 0 && s[0] == '+' {
        s.subrange(1, s.len() as int)
    } else {
        s
    }
}

/// The number up to `max` that `s` holds: at least one decimal digit and
/// nothing else, but for one leading plus sign.
pub open spec fn parsed(s: Seq<char>, max: nat) -> Option<nat> {
    let digits = unsigned(s);
    if digits.len() > 0 && all_digits(digits) && value(digits) <= max {
        Some(value(digits))
    } else {
        None
    }
}

/// A number is not below the one that its first digits stand for.
proof fn lemma_prefix_value(s: Seq<char>, i: int)
    requires
        0 <= i <= s.len(),
        all_digits(s),
    ensures
        value(s.subrange(0, i)) <= value(s),
    decreases s.len(),
{
    if i == s.len() {
        assert(s.subrange(0, i) =~= s);
    } else {
        lemma_prefix_value(s.drop_last(), i);
        assert(s.drop_last().subrange(0, i) =~= s.subrange(0, i));
        assert(is_digit(s[s.len() - 1]));
    }
}

/// Parse an unsigned decimal number up to `max`.
pub fn parse_number(s: &str, max: u64) -> (number: Option<u64>)
    ensures
        match number {
            Some(n) => parsed(s@, max as nat) == Some(n as nat),
            None => parsed(s@, max as nat) is None,
        },
{
    let len: usize = s.unicode_len();
    if len == 0 {
        return None;
    }
    let start: usize = if s.get_char(0) == '+' {
        1
    } else {
        0
    };
    let ghost digits = unsigned(s@);
    if start == len {
        return None;
    }
    let mut n: u64 = 0;
    let mut i: usize = start;
    while i < len
        invariant
            start <= i <= len,
            start <= 1,
            len == s@.len(),
            digits == s@.subrange(start as int, len as int),
            digits == unsigned(s@),
            all_digits(digits.subrange(0, i - start)),
            n == value(digits.subrange(0, i - start)),
            n <= max,
        decreases len - i,
    {
        let c: char = s.get_char(i);
        let ghost here = digits.subrange(0, i - start);
        let ghost next = digits.subrange(0, i + 1 - start);
        proof {
            assert(next.drop_last() =~= here);
            assert(next.last() == c);
            assert(digits[i - start] == c);
        }
        if c < '0' || c > '9' {
            return None;
        }
        let d: u64 = c as u64 - '0' as u64;
        if d > max || n > (max - d) / 10 {
            proof {
                if all_digits(digits) {
                    lemma_prefix_value(digits, i + 1 - start);
                }
            }
            return None;
        }
        proof {
            assert forall|k: int| 0 <= k < next.len() implies is_digit(#[trigger] next[k]) by {
                if k < here.len() {
                    assert(here[k] == next[k]);
                }
            }
        }
        n = 10 * n + d;
        i += 1;
    }
    assert(digits.subrange(0, len - start) =~= digits);
    Some(n)
}

/// A number written in decimal is made of digits, has no sign, and stands for
/// itself.
proof fn lemma_decimal(n: nat)
    ensures
        decimal(n).len() > 0,
        all_digits(decimal(n)),
        value(decimal(n)) == n,
    decreases n,
{
    if n < 10 {
        assert(decimal(n).drop_last() =~= Seq::<char>::empty());
        assert(value(Seq::<char>::empty()) == 0);
    } else {
        lemma_decimal(n / 10);
        assert(decimal(n).drop_last() =~= decimal(n / 10));
    }
}

/// Parsing reads back every number that was written.
pub proof fn law_decimal_round_trip(n: nat, max: nat)
    requires
        n <= max,
    ensures
        parsed(decimal(n), max) == Some(n),
{
    lemma_decimal(n);
    assert(is_digit(decimal(n)[0]));
}

/// Different numbers are written differently.
pub proof fn law_decimal_injective(n: nat, m: nat)
    requires
        decimal(n) == decimal(m),
    ensures
        n == m,
{
    lemma_decimal(n);
    lemma_decimal(m);
}

/// A number is written by its last digit behind the rest of the number, the
/// digits being the characters from code 48 on, and only zero itself starts
/// with a zero.
pub proof fn law_decimal_digits(n: nat)
    ensures
        n < 10 ==> decimal(n).len() == 1,
        n >= 10 ==> decimal(n).len() == decimal(n / 10).len() + 1 && decimal(n).drop_last()
            == decimal(n / 10),
        decimal(n).last() as int == 48 + n % 10,
        n > 0 ==> decimal(n)[0] as int != 48,
    decreases n,
{
    if n >= 10 {
        law_decimal_digits(n / 10);
        assert(decimal(n).drop_last() =~= decimal(n / 10));
        assert(decimal(n)[0] == decimal(n / 10)[0]);
    }
}

/// Nothing, and a plus sign alone, are no numbers.
pub proof fn law_parse_nothing(max: nat)
    ensures
        parsed(Seq::<char>::empty(), max) is None,
        parsed(seq!['+'], max) is None,
{
}

/// How a number is read, character by character: a digit (the characters from
/// code 48 to 57) behind a number makes it ten times as great and adds the
/// digit; a number begins with a digit or with a plus sign; anything else, and
/// anything above the limit, is no number.
pub proof fn law_parse_step(s: Seq<char>, c: char, max: nat)
    ensures
        ({
            let longer = parsed(s.push(c), max);
            let d = c as int - 48;
            let begins = s.len() == 0 || s == seq!['+'];
            &&& !(0 <= d <= 9) ==> longer is None
            &&& 0 <= d <= 9 && begins ==> longer == if d <= max {
                Some(d as nat)
            } else {
                None
            }
            &&& 0 <= d <= 9 && !begins && parsed(s, max) is Some ==> longer == if 10 * parsed(
                s,
                max,
            )->0 + d <= max {
                Some((10 * parsed(s, max)->0 + d) as nat)
            } else {
                None
            }
            &&& 0 <= d <= 9 && !begins && parsed(s, max) is None ==> longer is None
        }),
{
    let long = s.push(c);
    let digits = unsigned(s);
    let more = unsigned(long);
    let d = c as int - 48;
    if s.len() == 0 {
        if c != '+' {
            assert(more == long);
            assert(more[0] == c);
            assert(more.drop_last() =~= Seq::<char>::empty());
            assert(value(Seq::<char>::empty()) == 0);
        }
    } else {
        assert(more =~= digits.push(c));
        assert(more.drop_last() =~= digits);
        assert(more[more.len() - 1] == c);
        if s == seq!['+'] {
            assert(digits =~= Seq::<char>::empty());
            assert(value(Seq::<char>::empty()) == 0);
        } else if digits.len() == 0 {
            assert(s =~= seq!['+']);
        }
        if all_digits(digits) && is_digit(c) {
            assert forall|i: int| 0 <= i < more.len() implies is_digit(#[trigger] more[i]) by {
                if i < digits.len() {
                    assert(is_digit(digits[i]));
                }
            }
        }
        if all_digits(more) {
            assert forall|i: int| 0 <= i < digits.len() implies is_digit(#[trigger] digits[i]) by {
                assert(is_digit(more[i]));
            }
        }
    }
}

} // verus!
