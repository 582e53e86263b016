//! Bytes written as pairs of hexadecimal digits.

use vstd::prelude::*;

verus! {

/// Unicode white space.
pub open spec fn is_space(c: char) -> bool {
    ||| '\u{9}' <= c <= '\u{d}'
    ||| c == ' '
    ||| c == '\u{85}'
    ||| c == '\u{a0}'
    ||| c == '\u{1680}'
    ||| '\u{2000}' <= c <= '\u{200a}'
    ||| c == '\u{2028}'
    ||| c == '\u{2029}'
    ||| c == '\u{202f}'
    ||| c == '\u{205f}'
    ||| c == '\u{3000}'
}

fn check_space(c: char) -> (space: bool)
    ensures
        space == is_space(c),
{
    ('\u{9}' <= c && c <= '\u{d}') || c == ' ' || c == '\u{85}' || c == '\u{a0}' || c == '\u{1680}'
        || ('\u{2000}' <= c && c <= '\u{200a}') || c == '\u{2028}' || c == '\u{2029}' || c
        == '\u{202f}' || c == '\u{205f}' || c == '\u{3000}'
}

/// `s` without leading white space.
pub open spec fn trim_start(s: Seq<char>) -> Seq<char>
    decreases s.len(),
{
    if s.len() > 0 && is_space(s[0]) {
        trim_start(s.drop_first())
    } else {
        s
    }
}

/// `s` without trailing white space.
pub open spec fn trim_end(s: Seq<char>) -> Seq<char>
    decreases s.len(),
{
    if s.len() > 0 && is_space(s.last()) {
        trim_end(s.drop_last())
    } else {
        s
    }
}

/// `s` without white space at either end.
pub open spec fn trimmed(s: Seq<char>) -> Seq<char> {
    trim_end(trim_start(s))
}

/// A hexadecimal digit.
pub open spec fn is_hex(c: char) -> bool {
    '0' <= c <= '9' || 'a' <= c <= 'f' || 'A' <= c <= 'F'
}

/// The value of a hexadecimal digit.
pub open spec fn hex_value(c: char) -> int {
    if c <= '9' {
        c as int - '0' as int
    } else if c <= 'F' {
        c as int - 'A' as int + 10
    } else {
        c as int - 'a' as int + 10
    }
}

fn read_digit(c: char) -> (v: u8)
    requires
        is_hex(c),
    ensures
        v == hex_value(c),
        v < 16,
{
    if c <= '9' {
        (c as u32 - '0' as u32) as u8
    } else if c <= 'F' {
        (c as u32 - 'A' as u32 + 10) as u8
    } else {
        (c as u32 - 'a' as u32 + 10) as u8
    }
}

/// The `i`th pair of characters is a byte: two digits, or a plus sign and one
/// digit.
pub open spec fn pair_ok(s: Seq<char>, i: int) -> bool {
    (is_hex(s[2 * i]) || s[2 * i] == '+') && is_hex(s[2 * i + 1])
}

/// The byte that the `i`th pair of characters stands for.
pub open spec fn pair_byte(s: Seq<char>, i: int) -> u8 {
    if s[2 * i] == '+' {
        hex_value(s[2 * i + 1]) as u8
    } else {
        (16 * hex_value(s[2 * i]) + hex_value(s[2 * i + 1])) as u8
    }
}

/// `s` is a run of pairs that each stand for a byte.
pub open spec fn valid_hex(s: Seq<char>) -> bool {
    &&& s.len() % 2 == 0
    &&& forall|i: int| 0 <= i < s.len() / 2 ==> #[trigger] pair_ok(s, i)
}

/// The bytes that a run of pairs stands for.
pub open spec fn hex_bytes(s: Seq<char>) -> Seq<u8> {
    Seq::new(s.len() / 2, |i: int| pair_byte(s, i))
}

/// The bytes that a hex string stands for, white space at its ends aside.
pub fn hex_to_bytes(hex: &str) -> (bytes: Vec<u8>)
    requires
        valid_hex(trimmed(hex@)),
    ensures
        bytes@ == hex_bytes(trimmed(hex@)),
{
    let len: usize = hex.unicode_len();
    let mut start: usize = 0;
    assert(hex@.subrange(0, len as int) =~= hex@);
    while start < len && check_space(hex.get_char(start))
        invariant
            start <= len,
            len == hex@.len(),
            trim_start(hex@.subrange(start as int, len as int)) == trim_start(hex@),
        decreases len - start,
    {
        assert(hex@.subrange(start as int, len as int).drop_first() =~= hex@.subrange(
            start + 1,
            len as int,
        ));
        start += 1;
    }
    let mut end: usize = len;
    while end > start && check_space(hex.get_char(end - 1))
        invariant
            start <= end <= len,
            len == hex@.len(),
            trim_end(hex@.subrange(start as int, end as int)) == trimmed(hex@),
        decreases end - start,
    {
        assert(hex@.subrange(start as int, end as int).drop_last() =~= hex@.subrange(
            start as int,
            end - 1,
        ));
        end -= 1;
    }
    let ghost body = hex@.subrange(start as int, end as int);
    assert(body == trimmed(hex@));
    let mut bytes: Vec<u8> = Vec::new();
    let mut i: usize = start;
    while i < end
        invariant
            start <= i <= end <= len,
            len == hex@.len(),
            (i - start) % 2 == 0,
            body == hex@.subrange(start as int, end as int),
            valid_hex(body),
            bytes@ == hex_bytes(body).take((i - start) / 2),
        decreases end - i,
    {
        let ghost k = (i - start) / 2;
        assert(pair_ok(body, k));
        let high: char = hex.get_char(i);
        let low: char = hex.get_char(i + 1);
        assert(body[2 * k] == high && body[2 * k + 1] == low);
        let byte: u8 = if high == '+' {
            read_digit(low)
        } else {
            16 * read_digit(high) + read_digit(low)
        };
        bytes.push(byte);
        assert(bytes@ =~= hex_bytes(body).take(k + 1));
        i += 2;
    }
    assert(bytes@ =~= hex_bytes(body));
    bytes
}

/// The sixteen digits by their codes: 48 to 57 for the numerals, and the first
/// six letters from 65 and from 97 on.
pub proof fn law_hex_digit(c: char)
    ensures
        is_hex(c) <==> 48 <= c as int <= 57 || 65 <= c as int <= 70 || 97 <= c as int <= 102,
        48 <= c as int <= 57 ==> hex_value(c) == c as int - 48,
        65 <= c as int <= 70 ==> hex_value(c) == c as int - 55,
        97 <= c as int <= 102 ==> hex_value(c) == c as int - 87,
{
}

/// A run of digits stands for half as many bytes, each the value of its first
/// digit times sixteen and its second digit; a plus sign in the first place
/// counts as zero.
pub proof fn law_hex_pairs(s: Seq<char>, k: int)
    requires
        s.len() % 2 == 0,
        0 <= k < s.len() / 2,
        is_hex(s[2 * k + 1]),
    ensures
        hex_bytes(s).len() == s.len() / 2,
        is_hex(s[2 * k]) ==> hex_bytes(s)[k] == 16 * hex_value(s[2 * k]) + hex_value(s[2 * k + 1]),
        s[2 * k] == '+' ==> hex_bytes(s)[k] == hex_value(s[2 * k + 1]),
        valid_hex(s) ==> is_hex(s[2 * k]) || s[2 * k] == '+',
{
    if valid_hex(s) {
        assert(pair_ok(s, k));
    }
}

/// White space in front is cut.
proof fn lemma_trim_start(before: Seq<char>, s: Seq<char>)
    requires
        forall|i: int| 0 <= i < before.len() ==> is_space(#[trigger] before[i]),
        s.len() == 0 || !is_space(s[0]),
    ensures
        trim_start(before + s) == s,
    decreases before.len(),
{
    let all = before + s;
    if before.len() == 0 {
        assert(all =~= s);
    } else {
        let rest = before.drop_first();
        assert(is_space(before[0]));
        assert(all[0] == before[0]);
        assert(all.drop_first() =~= rest + s);
        assert forall|i: int| 0 <= i < rest.len() implies is_space(#[trigger] rest[i]) by {
            assert(rest[i] == before[i + 1]);
        }
        lemma_trim_start(rest, s);
    }
}

/// White space behind is cut.
proof fn lemma_trim_end(s: Seq<char>, after: Seq<char>)
    requires
        forall|i: int| 0 <= i < after.len() ==> is_space(#[trigger] after[i]),
        s.len() == 0 || !is_space(s.last()),
    ensures
        trim_end(s + after) == s,
    decreases after.len(),
{
    let all = s + after;
    if after.len() == 0 {
        assert(all =~= s);
    } else {
        let rest = after.drop_last();
        assert(is_space(after[after.len() - 1]));
        assert(all.last() == after.last());
        assert(all.drop_last() =~= s + rest);
        assert forall|i: int| 0 <= i < rest.len() implies is_space(#[trigger] rest[i]) by {
            assert(rest[i] == after[i]);
        }
        lemma_trim_end(s, rest);
    }
}

/// Exactly the white space at both ends is cut: what starts and ends with
/// something else is left whole.
pub proof fn law_trimmed(before: Seq<char>, body: Seq<char>, after: Seq<char>)
    requires
        forall|i: int| 0 <= i < before.len() ==> is_space(#[trigger] before[i]),
        forall|i: int| 0 <= i < after.len() ==> is_space(#[trigger] after[i]),
        body.len() > 0,
        !is_space(body[0]),
        !is_space(body.last()),
    ensures
        trimmed(before + body + after) == body,
{
    let tail = body + after;
    assert(before + body + after =~= before + tail);
    assert(tail[0] == body[0]);
    lemma_trim_start(before, tail);
    lemma_trim_end(body, after);
}

/// Nothing is left of white space alone.
pub proof fn law_trimmed_away(spaces: Seq<char>)
    requires
        forall|i: int| 0 <= i < spaces.len() ==> is_space(#[trigger] spaces[i]),
    ensures
        trimmed(spaces) == Seq::<char>::empty(),
{
    lemma_trim_start(spaces, Seq::<char>::empty());
    assert(spaces + Seq::<char>::empty() =~= spaces);
}

/// White space by code: the control characters 9 to 13, the blank, the two
/// unbroken Latin ones, and the typographic blanks.
pub proof fn law_space_codes(c: char)
    ensures
        ({
            let code = c as int;
            is_space(c) <==> 9 <= code <= 13 || code == 32 || code == 133 || code == 160 || code
                == 5760 || 8192 <= code <= 8202 || code == 8232 || code == 8233 || code == 8239
                || code == 8287 || code == 12288
        }),
{
}

} // verus!
