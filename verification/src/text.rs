//! Text helpers shared by the mappings.

use vstd::prelude::*;

verus! {

/// The contents of a list of strings.
pub open spec fn texts(list: Seq<String>) -> Seq<Seq<char>> {
    list.map_values(|s: String| s@)
}

/// The contents of an optional string, empty where there is none.
pub open spec fn text_or_empty(text: Option<String>) -> Seq<char> {
    match text {
        Some(s) => s@,
        None => Seq::empty(),
    }
}

/// The contents of an optional string.
pub open spec fn text_option(text: Option<String>) -> Option<Seq<char>> {
    match text {
        Some(s) => Some(s@),
        None => None,
    }
}

/// The texts that are present in a list, in their order.
pub open spec fn present_texts(list: Seq<Option<String>>) -> Seq<Seq<char>>
    decreases list.len(),
{
    if list.len() == 0 {
        Seq::empty()
    } else {
        match list.last() {
            Some(text) => present_texts(list.drop_last()).push(text@),
            None => present_texts(list.drop_last()),
        }
    }
}

/// Whether two texts hold the same characters.
pub fn same_text(a: &str, b: &str) -> (same: bool)
    ensures
        same == (a@ == b@),
{
    a.to_owned() == b.to_owned()
}

/// A copy of an optional string, the empty string where there is none.
pub fn owned_or_empty(text: &Option<String>) -> (owned: String)
    ensures
        owned@ == text_or_empty(*text),
{
    match text {
        Some(s) => s.clone(),
        None => String::new(),
    }
}

/// A copy of an optional string.
pub fn copy_option(text: &Option<String>) -> (copy: Option<String>)
    ensures
        copy == *text,
{
    match text {
        Some(s) => Some(s.clone()),
        None => None,
    }
}

/// A copy of a list of strings.
pub fn copy_list(list: &Vec<String>) -> (copy: Vec<String>)
    ensures
        copy@ == list@,
{
    let mut copy: Vec<String> = Vec::new();
    let mut i: usize = 0;
    while i < list.len()
        invariant
            i <= list.len(),
            copy@ == list@.take(i as int),
        decreases list.len() - i,
    {
        copy.push(list[i].clone());
        proof {
            assert(list@.take(i as int).push(list@[i as int]) =~= list@.take(i + 1));
        }
        i = i + 1;
    }
    proof {
        assert(list@.take(list@.len() as int) =~= list@);
    }
    copy
}

/// The characters of a text.
pub fn chars_of(text: &str) -> (chars: Vec<char>)
    ensures
        chars@ == text@,
{
    let mut chars: Vec<char> = Vec::new();
    for c in iter: text.chars()
        invariant
            chars@ == text@.take(iter.index()),
            iter.seq() == text@,
    {
        chars.push(c);
        assert(text@.take(iter.index()).push(c) =~= text@.take(iter.index() + 1));
    }
    assert(text@.take(text@.len() as int) =~= text@);
    chars
}

/// The joined text of two parts.
pub fn joined(head: &str, tail: &str) -> (text: String)
    ensures
        text@ == head@ + tail@,
{
    let mut text = head.to_owned();
    text.append(tail);
    text
}

/// The decimal digit of value `d`.
pub open spec fn digit_char(d: int) -> char {
    (48 + d) as char
}

/// The decimal numeral of `n`, most significant digit first.
pub open spec fn decimal(n: nat) -> Seq<char>
    decreases n,
{
    if n < 10 {
        seq![digit_char(n as int)]
    } else {
        decimal(n / 10).push(digit_char((n % 10) as int))
    }
}

/// The decimal numeral of a signed number, with a leading minus below zero.
pub open spec fn signed_decimal(n: int) -> Seq<char> {
    if n < 0 {
        seq!['-'] + decimal((-n) as nat)
    } else {
        decimal(n as nat)
    }
}

fn digit_text(d: u64) -> (text: &'static str)
    requires
        d < 10,
    ensures
        text@ == seq![digit_char(d as int)],
{
    proof {
        reveal_strlit("0");
        reveal_strlit("1");
        reveal_strlit("2");
        reveal_strlit("3");
        reveal_strlit("4");
        reveal_strlit("5");
        reveal_strlit("6");
        reveal_strlit("7");
        reveal_strlit("8");
        reveal_strlit("9");
    }
    let text: &'static str = if d == 0 {
        "0"
    } else if d == 1 {
        "1"
    } else if d == 2 {
        "2"
    } else if d == 3 {
        "3"
    } else if d == 4 {
        "4"
    } else if d == 5 {
        "5"
    } else if d == 6 {
        "6"
    } else if d == 7 {
        "7"
    } else if d == 8 {
        "8"
    } else {
        "9"
    };
    assert(text@ =~= seq![digit_char(d as int)]);
    text
}

/// Renders an unsigned number in decimal.
pub fn decimal_text(n: u64) -> (text: String)
    ensures
        text@ == decimal(n as nat),
    decreases n,
{
    let last = digit_text(n % 10);
    if n < 10 {
        last.to_owned()
    } else {
        let mut text = decimal_text(n / 10);
        text.append(last);
        assert(text@ =~= decimal(n as nat));
        text
    }
}

/// Renders a signed number in decimal.
pub fn signed_decimal_text(n: i64) -> (text: String)
    ensures
        text@ == signed_decimal(n as int),
{
    if n < 0 {
        let magnitude: u64 = (-(n as i128)) as u64;
        let digits = decimal_text(magnitude);
        proof {
            reveal_strlit("-");
            assert("-"@ =~= seq!['-']);
        }
        joined("-", digits.as_str())
    } else {
        decimal_text(n as u64)
    }
}

/// Picking the texts that are present goes part by part: a list of one gives its
/// text or nothing, and two lists in a row give what each gives, in that order.
pub proof fn law_present_texts_go_part_by_part(
    text: String,
    head: Seq<Option<String>>,
    tail: Seq<Option<String>>,
)
    ensures
        present_texts(Seq::empty()) == Seq::<Seq<char>>::empty(),
        present_texts(seq![Some(text)]) == seq![text@],
        present_texts(seq![None::<String>]) == Seq::<Seq<char>>::empty(),
        present_texts(head + tail) == present_texts(head) + present_texts(tail),
    decreases tail.len(),
{
    reveal_with_fuel(present_texts, 2);
    assert(seq![Some(text)].drop_last() =~= Seq::<Option<String>>::empty());
    assert(seq![None::<String>].drop_last() =~= Seq::<Option<String>>::empty());
    assert(present_texts(seq![Some(text)]) =~= seq![text@]);
    if tail.len() == 0 {
        assert(head + tail =~= head);
        assert(present_texts(head + tail) =~= present_texts(head) + present_texts(tail));
    } else {
        law_present_texts_go_part_by_part(text, head, tail.drop_last());
        assert((head + tail).drop_last() =~= head + tail.drop_last());
        assert((head + tail).last() == tail.last());
        assert(present_texts(head + tail) =~= present_texts(head) + present_texts(tail));
    }
}

/// The value of a row of decimal digits.
pub open spec fn numeral_value(digits: Seq<char>) -> int
    decreases digits.len(),
{
    if digits.len() == 0 {
        0
    } else {
        10 * numeral_value(digits.drop_last()) + (digits.last() as int - '0' as int)
    }
}

/// A numeral is made of decimal digits, starts with no zero unless it is zero
/// itself, and has the value of the number that it stands for. There is only one
/// such text.
pub proof fn law_decimal_is_read_back(n: nat)
    ensures
        decimal(n).len() > 0,
        forall|i: int| 0 <= i < decimal(n).len() ==> '0' <= #[trigger] decimal(n)[i] <= '9',
        n > 0 ==> decimal(n)[0] != '0',
        numeral_value(decimal(n)) == n,
    decreases n,
{
    if n < 10 {
        assert(decimal(n).drop_last() =~= Seq::<char>::empty());
        assert(decimal(n).last() == digit_char(n as int));
        assert(numeral_value(decimal(n).drop_last()) == 0);
    } else {
        law_decimal_is_read_back(n / 10);
        assert(decimal(n).drop_last() =~= decimal(n / 10));
        assert(decimal(n).last() == digit_char((n % 10) as int));
    }
}

/// A signed numeral is that of the magnitude, behind a minus sign where the
/// number is below zero.
pub proof fn law_sign_is_a_minus(n: int)
    ensures
        n >= 0 ==> numeral_value(signed_decimal(n)) == n && '0' <= signed_decimal(n)[0] <= '9',
        n < 0 ==> signed_decimal(n)[0] == '-' && numeral_value(signed_decimal(n).skip(1)) == -n,
{
    if n < 0 {
        law_decimal_is_read_back((-n) as nat);
        assert(signed_decimal(n).skip(1) =~= decimal((-n) as nat));
    } else {
        law_decimal_is_read_back(n as nat);
    }
}

} // verus!
