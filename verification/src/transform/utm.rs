//! UTM grid zone designators.

use crate::text::{chars_of, numeral_value};
use vstd::prelude::*;

verus! {

/// Unicode `White_Space`.
pub open spec fn is_white(c: char) -> bool {
    ||| '\u{9}' <= c <= '\u{d}'
    ||| c == '\u{20}'
    ||| c == '\u{85}'
    ||| c == '\u{a0}'
    ||| c == '\u{1680}'
    ||| '\u{2000}' <= c <= '\u{200a}'
    ||| c == '\u{2028}'
    ||| c == '\u{2029}'
    ||| c == '\u{202f}'
    ||| c == '\u{205f}'
    ||| c == '\u{3000}'
}

/// A text without leading white space.
pub open spec fn trimmed_start(s: Seq<char>) -> Seq<char>
    decreases s.len(),
{
    if s.len() > 0 && is_white(s[0]) {
        trimmed_start(s.drop_first())
    } else {
        s
    }
}

/// A text without trailing white space.
pub open spec fn trimmed_end(s: Seq<char>) -> Seq<char>
    decreases s.len(),
{
    if s.len() > 0 && is_white(s.last()) {
        trimmed_end(s.drop_last())
    } else {
        s
    }
}

/// A text without white space around it.
pub open spec fn trimmed(s: Seq<char>) -> Seq<char> {
    trimmed_end(trimmed_start(s))
}

pub open spec fn is_digit(c: char) -> bool {
    '0' <= c <= '9'
}

/// The number that a row of decimal digits stands for.
pub open spec fn digits_value(s: Seq<char>) -> nat
    decreases s.len(),
{
    if s.len() == 0 {
        0
    } else {
        digits_value(s.drop_last()) * 10 + (s.last() as nat - '0' as nat) as nat
    }
}

/// The digits of a numeral, after a plus sign that may stand before them.
pub open spec fn numeral_digits(s: Seq<char>) -> Seq<char> {
    if s.len() > 0 && s[0] == '+' {
        s.drop_first()
    } else {
        s
    }
}

/// Whether a text is an unsigned decimal numeral.
pub open spec fn is_numeral(s: Seq<char>) -> bool {
    &&& numeral_digits(s).len() > 0
    &&& forall|i: int|
        0 <= i < numeral_digits(s).len() ==> is_digit(#[trigger] numeral_digits(s)[i])
}

/// Latitude bands of the northern hemisphere.
pub open spec fn is_northern_band(c: char) -> bool {
    ||| c == 'N' || c == 'n'
    ||| c == 'P' || c == 'p'
    ||| c == 'Q' || c == 'q'
    ||| c == 'R' || c == 'r'
    ||| c == 'S' || c == 's'
    ||| c == 'T' || c == 't'
    ||| c == 'U' || c == 'u'
    ||| c == 'V' || c == 'v'
    ||| c == 'W' || c == 'w'
    ||| c == 'X' || c == 'x'
}

/// The zone number and hemisphere that a designator names: a number from 1 to
/// 60 and one character for the latitude band, with white space around them
/// ignored.
pub open spec fn utm_zone(zone: Seq<char>) -> Option<(u8, bool)> {
    let s = trimmed(zone);
    if s.len() > 0 && is_numeral(s.drop_last()) && 1 <= digits_value(numeral_digits(s.drop_last()))
        <= 60 {
        Some((digits_value(numeral_digits(s.drop_last())) as u8, is_northern_band(s.last())))
    } else {
        None
    }
}

fn white(c: char) -> (yes: bool)
    ensures
        yes == is_white(c),
{
    ('\u{9}' <= c && c <= '\u{d}') || c == '\u{20}' || c == '\u{85}' || c == '\u{a0}' || c
        == '\u{1680}' || ('\u{2000}' <= c && c <= '\u{200a}') || c == '\u{2028}' || c == '\u{2029}'
        || c == '\u{202f}' || c == '\u{205f}' || c == '\u{3000}'
}

fn northern_band(c: char) -> (yes: bool)
    ensures
        yes == is_northern_band(c),
{
    c == 'N' || c == 'n' || c == 'P' || c == 'p' || c == 'Q' || c == 'q' || c == 'R' || c == 'r'
        || c == 'S' || c == 's' || c == 'T' || c == 't' || c == 'U' || c == 'u' || c == 'V' || c
        == 'v' || c == 'W' || c == 'w' || c == 'X' || c == 'x'
}

/// Where a text without white space around it starts and ends.
fn trim(chars: &Vec<char>) -> (bounds: (usize, usize))
    ensures
        bounds.0 <= bounds.1 <= chars@.len(),
        chars@.subrange(bounds.0 as int, bounds.1 as int) == trimmed(chars@),
{
    let mut start: usize = 0;
    proof {
        assert(chars@.skip(0) =~= chars@);
    }
    while start < chars.len() && white(chars[start])
        invariant
            start <= chars@.len(),
            trimmed_start(chars@.skip(start as int)) == trimmed_start(chars@),
        decreases chars@.len() - start,
    {
        proof {
            assert(chars@.skip(start as int)[0] == chars@[start as int]);
            assert(chars@.skip(start as int).drop_first() =~= chars@.skip(start + 1));
        }
        start = start + 1;
    }
    let ghost rest = chars@.skip(start as int);
    assert(rest == trimmed_start(chars@)) by {
        if start < chars@.len() {
            assert(rest[0] == chars@[start as int]);
        }
    }
    let mut end: usize = chars.len();
    proof {
        assert(chars@.subrange(start as int, end as int) =~= rest);
    }
    while end > start && white(chars[end - 1])
        invariant
            start <= end <= chars@.len(),
            trimmed_end(chars@.subrange(start as int, end as int)) == trimmed_end(rest),
        decreases end,
    {
        proof {
            let s = chars@.subrange(start as int, end as int);
            assert(s.last() == chars@[end - 1]);
            assert(s.drop_last() =~= chars@.subrange(start as int, end - 1));
        }
        end = end - 1;
    }
    proof {
        let s = chars@.subrange(start as int, end as int);
        if end > start {
            assert(s.last() == chars@[end - 1]);
        }
    }
    (start, end)
}

/// The value of a numeral from `start` to `end`, if it is one and at most 60.
fn small_numeral(chars: &Vec<char>, start: usize, end: usize) -> (value: Option<u8>)
    requires
        start <= end <= chars@.len(),
    ensures
        ({
            let s = chars@.subrange(start as int, end as int);
            match value {
                Some(n) => is_numeral(s) && n == digits_value(numeral_digits(s)) && n <= 60,
                None => !is_numeral(s) || digits_value(numeral_digits(s)) > 60,
            }
        }),
{
    let ghost s = chars@.subrange(start as int, end as int);
    let first: usize = if start < end && chars[start] == '+' {
        start + 1
    } else {
        start
    };
    let ghost digits = numeral_digits(s);
    proof {
        if start < end {
            assert(s[0] == chars@[start as int]);
        }
        assert(digits =~= chars@.subrange(first as int, end as int));
    }
    if first == end {
        return None;
    }
    let mut value: u8 = 0;
    let mut too_large = false;
    let mut i: usize = first;
    while i < end
        invariant
            start <= first <= i <= end <= chars@.len(),
            digits == chars@.subrange(first as int, end as int),
            digits == numeral_digits(s),
            s == chars@.subrange(start as int, end as int),
            forall|j: int| 0 <= j < i - first ==> is_digit(#[trigger] digits[j]),
            too_large ==> digits_value(digits.take(i - first)) > 60,
            !too_large ==> value == digits_value(digits.take(i - first)) && value <= 60,
        decreases end - i,
    {
        let c = chars[i];
        assert(digits[i - first] == c);
        if c < '0' || '9' < c {
            assert(!is_digit(digits[i - first]));
            return None;
        }
        proof {
            let t = digits.take(i - first + 1);
            assert(t.drop_last() =~= digits.take(i - first));
            assert(t.last() == c);
        }
        let d: u32 = c as u32 - '0' as u32;
        if !too_large {
            let next: u32 = value as u32 * 10 + d;
            if next > 60 {
                too_large = true;
            } else {
                value = next as u8;
            }
        }
        i = i + 1;
    }
    proof {
        assert(digits.take(end - first) =~= digits);
    }
    if too_large {
        None
    } else {
        Some(value)
    }
}

/// Reads a UTM zone designator such as `30U` into its zone number and whether
/// it lies in the northern hemisphere.
pub fn parse_utm_zone(zone: &str) -> (parsed: Option<(u8, bool)>)
    ensures
        parsed == utm_zone(zone@),
{
    let chars = chars_of(zone);
    let (start, end) = trim(&chars);
    let ghost s = trimmed(zone@);
    if start == end {
        return None;
    }
    let letter = chars[end - 1];
    proof {
        assert(s.last() == letter);
        assert(s.drop_last() =~= chars@.subrange(start as int, end - 1));
    }
    match small_numeral(&chars, start, end - 1) {
        Some(number) => if number >= 1 {
            Some((number, northern_band(letter)))
        } else {
            None
        },
        None => None,
    }
}

proof fn lemma_trimmed_start(s: Seq<char>)
    ensures
        trimmed_start(s).len() <= s.len(),
        ({
            let n = s.len() - trimmed_start(s).len();
            &&& trimmed_start(s) == s.skip(n)
            &&& forall|i: int| 0 <= i < n ==> is_white(#[trigger] s[i])
            &&& n < s.len() ==> !is_white(s[n])
        }),
    decreases s.len(),
{
    if s.len() > 0 && is_white(s[0]) {
        let rest = s.drop_first();
        lemma_trimmed_start(rest);
        let m = rest.len() - trimmed_start(rest).len();
        assert(rest.skip(m) =~= s.skip(m + 1));
        assert forall|i: int| 0 <= i < m + 1 implies is_white(#[trigger] s[i]) by {
            if i > 0 {
                assert(s[i] == rest[i - 1]);
            }
        }
    } else {
        assert(s.skip(0) =~= s);
    }
}

proof fn lemma_trimmed_end(s: Seq<char>)
    ensures
        trimmed_end(s).len() <= s.len(),
        trimmed_end(s) == s.take(trimmed_end(s).len() as int),
        forall|i: int| trimmed_end(s).len() <= i < s.len() ==> is_white(#[trigger] s[i]),
        trimmed_end(s).len() > 0 ==> !is_white(s[trimmed_end(s).len() - 1]),
    decreases s.len(),
{
    if s.len() > 0 && is_white(s.last()) {
        let rest = s.drop_last();
        lemma_trimmed_end(rest);
        let m = trimmed_end(rest).len() as int;
        assert(rest.take(m) =~= s.take(m));
        assert forall|i: int| m <= i < s.len() implies is_white(#[trigger] s[i]) by {
            if i < rest.len() {
                assert(s[i] == rest[i]);
            }
        }
        if m > 0 {
            assert(s[m - 1] == rest[m - 1]);
        }
    } else {
        assert(s.take(s.len() as int) =~= s);
    }
}

/// Only white space around a text is ignored, and all of it: what is left is a
/// piece of the text with nothing but white space before and behind it, and it
/// neither starts nor ends with white space.
pub proof fn law_white_space_around_is_ignored(text: Seq<char>) -> (bounds: (int, int))
    ensures
        0 <= bounds.0 <= bounds.1 <= text.len(),
        trimmed(text) == text.subrange(bounds.0, bounds.1),
        forall|i: int|
            0 <= i < bounds.0 || bounds.1 <= i < text.len() ==> is_white(#[trigger] text[i]),
        bounds.0 < bounds.1 ==> !is_white(text[bounds.0]) && !is_white(text[bounds.1 - 1]),
{
    lemma_trimmed_start(text);
    let rest = trimmed_start(text);
    lemma_trimmed_end(rest);
    let start = text.len() - rest.len();
    let end = start + trimmed(text).len();
    assert(trimmed(text) =~= text.subrange(start, end));
    assert forall|i: int| 0 <= i < start || end <= i < text.len() implies is_white(
        #[trigger] text[i],
    ) by {
        if end <= i {
            assert(text[i] == rest[i - start]);
        }
    }
    if start < end {
        assert(text[end - 1] == rest[end - 1 - start]);
    }
    (start, end)
}

/// White space is the blank, the tab and the ends of lines among the characters
/// of ASCII; no letter, digit or sign is.
pub proof fn law_ascii_white_space(c: char)
    requires
        c as int <= 0x7f,
    ensures
        is_white(c) <==> c == ' ' || c == '\t' || c == '\n' || c as int == 0xb || c as int == 0xc
            || c == '\r',
{
}

proof fn lemma_digits_value(s: Seq<char>)
    requires
        forall|i: int| 0 <= i < s.len() ==> is_digit(#[trigger] s[i]),
    ensures
        digits_value(s) == numeral_value(s),
    decreases s.len(),
{
    if s.len() > 0 {
        let rest = s.drop_last();
        assert forall|i: int| 0 <= i < rest.len() implies is_digit(#[trigger] rest[i]) by {
            assert(is_digit(s[i]));
        }
        lemma_digits_value(rest);
        assert(is_digit(s[s.len() - 1]));
    }
}

/// The digits of a designator: what stands before its last character, after a plus
/// sign that may stand first.
pub open spec fn designator_digits(s: Seq<char>) -> Seq<char> {
    if s[0] == '+' {
        s.subrange(1, s.len() - 1)
    } else {
        s.subrange(0, s.len() - 1)
    }
}

proof fn lemma_designator(s: Seq<char>)
    requires
        s.len() >= 2,
    ensures
        numeral_digits(s.drop_last()) == designator_digits(s),
        (forall|i: int|
            0 <= i < designator_digits(s).len() ==> is_digit(#[trigger] designator_digits(s)[i]))
            ==> digits_value(designator_digits(s)) == numeral_value(designator_digits(s)),
{
    let digits = designator_digits(s);
    assert(s.drop_last()[0] == s[0]);
    assert(numeral_digits(s.drop_last()) =~= digits);
    if forall|i: int| 0 <= i < digits.len() ==> is_digit(#[trigger] digits[i]) {
        lemma_digits_value(digits);
    }
}

/// A designator is a number and a latitude band: the zone is the number, from 1 to
/// 60, that the digits stand for, and it is northern if and only if the last
/// character is a letter from N to X other than O.
pub proof fn law_zone_is_number_and_band(zone: Seq<char>, number: u8, northern: bool)
    requires
        utm_zone(zone) == Some((number, northern)),
    ensures
        trimmed(zone).len() >= 2,
        designator_digits(trimmed(zone)).len() > 0,
        forall|i: int|
            0 <= i < designator_digits(trimmed(zone)).len() ==> '0' <= #[trigger] designator_digits(
                trimmed(zone),
            )[i] <= '9',
        number == numeral_value(designator_digits(trimmed(zone))),
        1 <= number <= 60,
        northern <==> ('N' <= trimmed(zone).last() <= 'X' && trimmed(zone).last() != 'O' || 'n'
            <= trimmed(zone).last() <= 'x' && trimmed(zone).last() != 'o'),
{
    let s = trimmed(zone);
    assert(s.len() >= 2) by {
        assert(s.drop_last().len() > 0);
    }
    lemma_designator(s);
    let digits = designator_digits(s);
    assert forall|i: int| 0 <= i < digits.len() implies '0' <= #[trigger] digits[i] <= '9' by {
        assert(is_digit(numeral_digits(s.drop_last())[i]));
    }
}

/// Every number from 1 to 60 in digits, with a character behind it, names a zone.
pub proof fn law_number_and_band_name_a_zone(zone: Seq<char>)
    requires
        trimmed(zone).len() >= 2,
        designator_digits(trimmed(zone)).len() > 0,
        forall|i: int|
            0 <= i < designator_digits(trimmed(zone)).len() ==> '0' <= #[trigger] designator_digits(
                trimmed(zone),
            )[i] <= '9',
        1 <= numeral_value(designator_digits(trimmed(zone))) <= 60,
    ensures
        utm_zone(zone) is Some,
{
    lemma_designator(trimmed(zone));
}

} // verus!
