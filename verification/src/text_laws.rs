//! What the text helpers give, said by the characters and numbers that they work on.
use vstd::prelude::*;

use crate::outside::white_space;
use crate::text::{
    ascii_lowered, blank, decimal_text, digit, joined, occurs_in, signed_decimal_text, trimmed,
    without_leading_space, without_trailing_space,
};

verus! {

/// Whether the part of the text from `from` to `to` is all but the whitespace at its ends.
pub open spec fn is_core(s: Seq<char>, from: int, to: int) -> bool {
    &&& 0 <= from <= to <= s.len()
    &&& forall|i: int| 0 <= i < from ==> white_space(#[trigger] s[i])
    &&& forall|i: int| to <= i < s.len() ==> white_space(#[trigger] s[i])
    &&& from < to ==> !white_space(s[from]) && !white_space(s[to - 1])
}

/// Trimming cuts whitespace off at both ends, all of it and nothing else.
pub proof fn trimming_cuts_the_space_at_the_ends(s: Seq<char>)
    ensures
        exists|from: int, to: int| #[trigger]
            is_core(s, from, to) && trimmed(s) == s.subrange(from, to),
{
    let from = leading_space_ends(s);
    let rest = s.subrange(from, s.len() as int);
    let length = trailing_space_starts(rest);
    assert forall|i: int| from + length <= i < s.len() implies white_space(#[trigger] s[i]) by {
        assert(rest[i - from] == s[i]);
    }
    if length > 0 {
        assert(rest[0] == s[from]);
        assert(rest[length - 1] == s[from + length - 1]);
    }
    assert(rest.subrange(0, length) =~= s.subrange(from, from + length));
    assert(is_core(s, from, from + length));
}

proof fn leading_space_ends(s: Seq<char>) -> (from: int)
    ensures
        0 <= from <= s.len(),
        without_leading_space(s) == s.subrange(from, s.len() as int),
        forall|i: int| 0 <= i < from ==> white_space(#[trigger] s[i]),
        from < s.len() ==> !white_space(s[from]),
    decreases s.len(),
{
    if s.len() > 0 && white_space(s[0]) {
        let rest = s.subrange(1, s.len() as int);
        let from = leading_space_ends(rest);
        assert(rest.subrange(from, rest.len() as int) =~= s.subrange(from + 1, s.len() as int));
        assert forall|i: int| 0 <= i < from + 1 implies white_space(#[trigger] s[i]) by {
            if i > 0 {
                assert(rest[i - 1] == s[i]);
            }
        }
        from + 1
    } else {
        assert(s.subrange(0, s.len() as int) =~= s);
        0
    }
}

proof fn trailing_space_starts(s: Seq<char>) -> (to: int)
    ensures
        0 <= to <= s.len(),
        without_trailing_space(s) == s.subrange(0, to),
        forall|i: int| to <= i < s.len() ==> white_space(#[trigger] s[i]),
        to > 0 ==> !white_space(s[to - 1]),
    decreases s.len(),
{
    if s.len() > 0 && white_space(s.last()) {
        let rest = s.drop_last();
        let to = trailing_space_starts(rest);
        assert(rest.subrange(0, to) =~= s.subrange(0, to));
        assert forall|i: int| to <= i < s.len() implies white_space(#[trigger] s[i]) by {
            if i < rest.len() {
                assert(rest[i] == s[i]);
            }
        }
        to
    } else {
        assert(s.subrange(0, s.len() as int) =~= s);
        s.len() as int
    }
}

/// A text is blank exactly if no character of it is anything but whitespace.
pub proof fn blank_means_nothing_to_see(s: Seq<char>)
    ensures
        blank(s) <==> !exists|i: int| 0 <= i < s.len() && !white_space(#[trigger] s[i]),
{
}

/// Lowering an ASCII letter gives the small letter at the same place of the alphabet; every other
/// character stays.
pub proof fn lowering_keeps_the_place_in_the_alphabet(c: char)
    ensures
        'A' <= c <= 'Z' ==> 'a' <= ascii_lowered(c) <= 'z' && ascii_lowered(c) as int - 'a' as int
            == c as int - 'A' as int,
        !('A' <= c <= 'Z') ==> ascii_lowered(c) == c,
{
}

/// A text occurs in another exactly if the other is made of something, the text, and something.
pub proof fn what_occurs_can_be_cut_out(needle: Seq<char>, s: Seq<char>)
    ensures
        occurs_in(needle, s) <==> exists|before: Seq<char>, after: Seq<char>| #[trigger]
            (before + needle + after) == s,
{
    if occurs_in(needle, s) {
        let i = choose|i: int|
            0 <= i && i + needle.len() <= s.len() && #[trigger] s.subrange(i, i + needle.len())
                == needle;
        let before = s.subrange(0, i);
        let after = s.subrange(i + needle.len(), s.len() as int);
        assert(before + needle + after =~= s);
    }
    if exists|before: Seq<char>, after: Seq<char>| #[trigger] (before + needle + after) == s {
        let (before, after) = choose|before: Seq<char>, after: Seq<char>| #[trigger]
            (before + needle + after) == s;
        let i = before.len() as int;
        assert(s.subrange(i, i + needle.len()) =~= needle);
    }
}

/// The number that a numeral stands for, in base ten.
pub open spec fn numeral_value(s: Seq<char>) -> int
    decreases s.len(),
{
    if s.len() == 0 {
        0
    } else {
        numeral_value(s.drop_last()) * 10 + (s.last() as int - '0' as int)
    }
}

/// Whether this is a numeral as it is written: digits, without a zero in front of others.
pub open spec fn is_numeral(s: Seq<char>) -> bool {
    &&& s.len() > 0
    &&& forall|i: int| 0 <= i < s.len() ==> '0' <= #[trigger] s[i] <= '9'
    &&& s.len() > 1 ==> s[0] != '0'
}

proof fn digits_count_up(d: nat)
    requires
        d < 10,
    ensures
        digit(d) as int == '0' as int + d,
{
    reveal_strlit("0123456789");
}

/// The decimal text of a number is the numeral that stands for it.
pub proof fn decimal_text_stands_for_its_number(n: nat)
    ensures
        is_numeral(decimal_text(n)),
        numeral_value(decimal_text(n)) == n,
        n > 0 ==> decimal_text(n)[0] != '0',
    decreases n,
{
    digits_count_up(n % 10);
    if n < 10 {
        reveal_with_fuel(numeral_value, 2);
        assert(decimal_text(n).drop_last() =~= Seq::<char>::empty());
    } else {
        decimal_text_stands_for_its_number(n / 10);
        let front = decimal_text(n / 10);
        let whole = decimal_text(n);
        assert(whole.drop_last() =~= front);
        assert(whole[0] == front[0]);
        assert forall|i: int| 0 <= i < whole.len() implies '0' <= #[trigger] whole[i] <= '9' by {
            if i < front.len() {
                assert(whole[i] == front[i]);
            }
        }
    }
}

/// The decimal text of a negative number is a minus sign and the numeral of its size; that of any
/// other number is its numeral.
pub proof fn signed_text_stands_for_its_number(n: int)
    ensures
        n >= 0 ==> is_numeral(signed_decimal_text(n)) && numeral_value(signed_decimal_text(n)) == n,
        n < 0 ==> {
            let text = signed_decimal_text(n);
            &&& text.len() > 1
            &&& text[0] == '-'
            &&& is_numeral(text.subrange(1, text.len() as int))
            &&& numeral_value(text.subrange(1, text.len() as int)) == -n
        },
{
    if n < 0 {
        let text = signed_decimal_text(n);
        decimal_text_stands_for_its_number((-n) as nat);
        assert(text.subrange(1, text.len() as int) =~= decimal_text((-n) as nat));
    } else {
        decimal_text_stands_for_its_number(n as nat);
    }
}

/// Where the part at place `i` starts, when parts stand one after another with gaps of this width
/// between them.
pub open spec fn part_start(parts: Seq<Seq<char>>, gap: nat, i: nat) -> nat
    decreases i,
{
    if i == 0 {
        0
    } else {
        part_start(parts, gap, (i - 1) as nat) + parts[i - 1].len() + gap
    }
}

proof fn starts_agree(a: Seq<Seq<char>>, b: Seq<Seq<char>>, gap: nat, i: nat)
    requires
        i <= a.len(),
        a.len() <= b.len(),
        forall|k: int| 0 <= k < a.len() ==> #[trigger] a[k] == b[k],
    ensures
        part_start(a, gap, i) == part_start(b, gap, i),
    decreases i,
{
    if i > 0 {
        starts_agree(a, b, gap, (i - 1) as nat);
        assert(a[i - 1] == b[i - 1]);
    }
}

/// Joined texts stand one after another, each as it is, with the separator between neighbours and
/// nothing else.
pub proof fn joined_texts_stand_in_their_places(
    parts: Seq<Seq<char>>,
    separator: Seq<char>,
    i: int,
)
    requires
        0 <= i < parts.len(),
    ensures
        ({
            let whole = joined(parts, separator);
            let start = part_start(parts, separator.len(), i as nat) as int;
            let end = start + parts[i].len();
            &&& end <= whole.len()
            &&& whole.subrange(start, end) == parts[i]
            &&& i + 1 < parts.len() ==> end + separator.len() <= whole.len() && whole.subrange(
                end,
                end + separator.len(),
            ) == separator
            &&& i + 1 == parts.len() ==> end == whole.len()
        }),
    decreases parts.len(),
{
    let gap = separator.len();
    let whole = joined(parts, separator);
    let start = part_start(parts, gap, i as nat) as int;
    if parts.len() == 1 {
        assert(whole.subrange(0, whole.len() as int) =~= whole);
    } else {
        let front = parts.drop_last();
        let before = joined(front, separator);
        let last = parts.len() - 1;
        starts_agree(front, parts, gap, i as nat);
        joined_texts_stand_in_their_places(front, separator, front.len() - 1);
        starts_agree(front, parts, gap, (front.len() - 1) as nat);
        assert(before.len() + gap == part_start(parts, gap, last as nat));
        if i == last {
            assert(whole.subrange(start, start + parts[i].len()) =~= parts[i]);
        } else {
            joined_texts_stand_in_their_places(front, separator, i);
            let end = start + parts[i].len();
            assert(front[i] == parts[i]);
            assert(whole.subrange(start, end) =~= before.subrange(start, end));
            if i + 1 < front.len() {
                assert(whole.subrange(end, end + gap) =~= before.subrange(end, end + gap));
            } else {
                assert(whole.subrange(end, end + gap) =~= separator);
            }
        }
    }
}

/// Nothing joined is nothing.
pub proof fn nothing_joined_is_nothing(separator: Seq<char>)
    ensures
        joined(Seq::<Seq<char>>::empty(), separator).len() == 0,
{
}

} // verus!
