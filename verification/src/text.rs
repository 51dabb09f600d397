//! Text that goes into error messages and addresses, and text that comes from files.
use vstd::prelude::*;

verus! {

/// The character for one decimal digit.
pub open spec fn digit(d: nat) -> char
    recommends
        d < 10,
{
    (48 + d) as char
}

/// A number in decimal notation, without leading zeros.
pub open spec fn decimal(n: nat) -> Seq<char>
    decreases n,
{
    if n < 10 {
        seq![digit(n)]
    } else {
        decimal(n / 10).push(digit(n % 10))
    }
}

/// The characters with the Unicode property `White_Space`.
pub open spec fn is_white_space(c: char) -> bool {
    let n = c as u32;
    ||| 0x09 <= n <= 0x0d
    ||| n == 0x20
    ||| n == 0x85
    ||| n == 0xa0
    ||| n == 0x1680
    ||| 0x2000 <= n <= 0x200a
    ||| n == 0x2028
    ||| n == 0x2029
    ||| n == 0x202f
    ||| n == 0x205f
    ||| n == 0x3000
}

/// `s` without its leading white space.
pub open spec fn trimmed_start(s: Seq<char>) -> Seq<char>
    decreases s.len(),
{
    if s.len() > 0 && is_white_space(s[0]) {
        trimmed_start(s.drop_first())
    } else {
        s
    }
}

/// `s` without its trailing white space.
pub open spec fn trimmed_end(s: Seq<char>) -> Seq<char>
    decreases s.len(),
{
    if s.len() > 0 && is_white_space(s.last()) {
        trimmed_end(s.drop_last())
    } else {
        s
    }
}

/// `s` without the white space at its two ends.
pub open spec fn trimmed(s: Seq<char>) -> Seq<char> {
    trimmed_end(trimmed_start(s))
}

/// Text that neither starts nor ends with white space is left alone by trimming.
pub proof fn lemma_trimmed_is_identity(s: Seq<char>)
    requires
        s.len() > 0 ==> !is_white_space(s[0]) && !is_white_space(s.last()),
    ensures
        trimmed(s) == s,
{
}

/// White space put around a text that has none at its ends is what trimming takes off.
pub proof fn lemma_trimmed_takes_padding_off(before: Seq<char>, s: Seq<char>, after: Seq<char>)
    requires
        forall|i: int| 0 <= i < before.len() ==> is_white_space(#[trigger] before[i]),
        forall|i: int| 0 <= i < after.len() ==> is_white_space(#[trigger] after[i]),
        s.len() > 0,
        !is_white_space(s[0]),
        !is_white_space(s.last()),
    ensures
        trimmed(before + s + after) == s,
    decreases before.len(), after.len(),
{
    let padded = before + s + after;
    if before.len() > 0 {
        assert(padded[0] == before[0]);
        assert(padded.drop_first() =~= before.drop_first() + s + after);
        lemma_trimmed_takes_padding_off(before.drop_first(), s, after);
    } else {
        assert(padded[0] == s[0]);
        assert(trimmed_start(padded) == padded);
        if after.len() > 0 {
            assert(padded.last() == after.last());
            assert(padded.drop_last() =~= before + s + after.drop_last());
            lemma_trimmed_takes_padding_off(before, s, after.drop_last());
            assert(padded.drop_last()[0] == s[0]);
        } else {
            assert(padded =~= s);
        }
    }
}

fn digit_text(d: u64) -> (text: &'static str)
    requires
        d < 10,
    ensures
        text@ == seq![digit(d as nat)],
{
    proof {
        reveal_strlit("0");
        reveal_strlit("1");
        reveal_strlit("2");
        reveal_strlit("3");
        reveal_strlit("4");
        reveal_strlit("5");
        reveal_strlit("6");
        reveal_strlit("7");
        reveal_strlit("8");
        reveal_strlit("9");
    }
    let text: &'static str = match d {
        0 => "0",
        1 => "1",
        2 => "2",
        3 => "3",
        4 => "4",
        5 => "5",
        6 => "6",
        7 => "7",
        8 => "8",
        _ => "9",
    };
    assert(text@ =~= seq![digit(d as nat)]);
    text
}

/// Writes `n` in decimal notation.
pub fn decimal_text(n: u64) -> (text: String)
    ensures
        text@ == decimal(n as nat),
    decreases n,
{
    if n < 10 {
        digit_text(n).to_owned()
    } else {
        let mut text = decimal_text(n / 10);
        let ghost high = text@;
        text.append(digit_text(n % 10));
        assert(text@ =~= high.push(digit((n % 10) as nat)));
        text
    }
}

/// Writes `tail` behind `head`.
pub fn joined(head: &str, tail: &str) -> (text: String)
    ensures
        text@ == head@ + tail@,
{
    let mut text = head.to_owned();
    text.append(tail);
    text
}

fn has_white_space_property(c: char) -> (yes: bool)
    ensures
        yes == is_white_space(c),
{
    let n: u32 = c as u32;
    (0x09 <= n && n <= 0x0d) || n == 0x20 || n == 0x85 || n == 0xa0 || n == 0x1680 || (0x2000 <= n
        && n <= 0x200a) || n == 0x2028 || n == 0x2029 || n == 0x202f || n == 0x205f || n == 0x3000
}

/// The part of `s` between the white space at its two ends.
pub fn trim(s: &str) -> (text: &str)
    ensures
        text@ == trimmed(s@),
{
    let len: usize = s.unicode_len();
    let mut from: usize = 0;
    assert(s@.subrange(0, len as int) =~= s@);
    while from < len && has_white_space_property(s.get_char(from))
        invariant
            from <= len,
            len == s@.len(),
            trimmed_start(s@) == trimmed_start(s@.subrange(from as int, len as int)),
        decreases len - from,
    {
        assert(s@.subrange(from as int, len as int).drop_first() =~= s@.subrange(
            from + 1,
            len as int,
        ));
        from = from + 1;
    }
    let ghost start = s@.subrange(from as int, len as int);
    assert(trimmed_start(s@) == start);
    let mut to: usize = len;
    while from < to && has_white_space_property(s.get_char(to - 1))
        invariant
            from <= to <= len,
            len == s@.len(),
            trimmed(s@) == trimmed_end(s@.subrange(from as int, to as int)),
        decreases to - from,
    {
        assert(s@.subrange(from as int, to as int).drop_last() =~= s@.subrange(
            from as int,
            to - 1,
        ));
        to = to - 1;
    }
    s.substring_char(from, to)
}

/// The number that decimal digits stand for.
pub open spec fn decimal_value(digits: Seq<char>) -> int
    decreases digits.len(),
{
    if digits.len() == 0 {
        0
    } else {
        10 * decimal_value(digits.drop_last()) + (digits.last() as int - '0' as int)
    }
}

/// The decimal notation of a number is made of decimal digits that stand for the number, without a
/// zero in front. So no two numbers have the same.
pub proof fn law_decimal_notation_stands_for_the_number(n: nat)
    ensures
        decimal(n).len() > 0,
        forall|i: int|
            0 <= i < decimal(n).len() ==> '0' as int <= (#[trigger] decimal(n)[i]) as int
                <= '9' as int,
        decimal(n).len() > 1 ==> decimal(n)[0] != '0',
        decimal_value(decimal(n)) == n,
    decreases n,
{
    if n < 10 {
        assert(decimal(n).drop_last() =~= Seq::<char>::empty());
        assert(decimal_value(Seq::<char>::empty()) == 0);
    } else {
        law_decimal_notation_stands_for_the_number(n / 10);
        let high = decimal(n / 10);
        assert(decimal(n).drop_last() =~= high);
        assert(decimal(n)[0] == high[0]);
        if high.len() == 1 {
            assert(high.drop_last() =~= Seq::<char>::empty());
            assert(decimal_value(Seq::<char>::empty()) == 0);
            assert(decimal_value(high) == high[0] as int - '0' as int);
        }
        assert forall|i: int| 0 <= i < decimal(n).len() implies '0' as int <= (
        #[trigger] decimal(n)[i]) as int <= '9' as int by {
            if i < high.len() {
                assert(decimal(n)[i] == high[i]);
            }
        }
    }
}

/// White space is what Unicode says: tabs, ends of lines, and spaces of all widths.
pub proof fn law_white_space_is_that_of_unicode(c: char)
    ensures
        is_white_space(c) <==> {
            ||| c == '\t'
            ||| c == '\n'
            ||| c == '\u{b}'
            ||| c == '\u{c}'
            ||| c == '\r'
            ||| c == ' '
            ||| c == '\u{85}'
            ||| c == '\u{a0}'
            ||| c == '\u{1680}'
            ||| c == '\u{2000}'
            ||| c == '\u{2001}'
            ||| c == '\u{2002}'
            ||| c == '\u{2003}'
            ||| c == '\u{2004}'
            ||| c == '\u{2005}'
            ||| c == '\u{2006}'
            ||| c == '\u{2007}'
            ||| c == '\u{2008}'
            ||| c == '\u{2009}'
            ||| c == '\u{200a}'
            ||| c == '\u{2028}'
            ||| c == '\u{2029}'
            ||| c == '\u{202f}'
            ||| c == '\u{205f}'
            ||| c == '\u{3000}'
        },
{
}

/// The text from `from` up to `to` is all that is left of `s` without the white space at its ends.
pub open spec fn is_between_white_space(s: Seq<char>, from: int, to: int) -> bool {
    &&& 0 <= from <= to <= s.len()
    &&& forall|i: int| 0 <= i < from ==> is_white_space(#[trigger] s[i])
    &&& forall|i: int| to <= i < s.len() ==> is_white_space(#[trigger] s[i])
    &&& from < to ==> !is_white_space(s[from]) && !is_white_space(s[to - 1])
}

/// Trimming takes off the white space at the two ends, all of it and nothing else.
pub proof fn law_trimming_takes_off_white_space_alone(s: Seq<char>)
    ensures
        exists|from: int, to: int| #[trigger]
            is_between_white_space(s, from, to) && trimmed(s) == s.subrange(from, to),
{
    lemma_start_is_trimmed(s);
    let from = choose|from: int|
        {
            &&& 0 <= from <= s.len()
            &&& #[trigger] s.subrange(from, s.len() as int) == trimmed_start(s)
            &&& forall|i: int| 0 <= i < from ==> is_white_space(#[trigger] s[i])
            &&& from < s.len() ==> !is_white_space(s[from])
        };
    let start = trimmed_start(s);
    lemma_end_is_trimmed(start);
    let end = choose|end: int|
        {
            &&& 0 <= end <= start.len()
            &&& #[trigger] start.subrange(0, end) == trimmed_end(start)
            &&& forall|i: int| end <= i < start.len() ==> is_white_space(#[trigger] start[i])
            &&& end > 0 ==> !is_white_space(start[end - 1])
        };
    assert(start.subrange(0, end) =~= s.subrange(from, from + end));
    assert forall|i: int| from + end <= i < s.len() implies is_white_space(#[trigger] s[i]) by {
        assert(s[i] == start[i - from]);
    }
    if end > 0 {
        assert(s[from + end - 1] == start[end - 1]);
    }
    assert(is_between_white_space(s, from, from + end));
}

proof fn lemma_start_is_trimmed(s: Seq<char>)
    ensures
        exists|from: int|
            {
                &&& 0 <= from <= s.len()
                &&& #[trigger] s.subrange(from, s.len() as int) == trimmed_start(s)
                &&& forall|i: int| 0 <= i < from ==> is_white_space(#[trigger] s[i])
                &&& from < s.len() ==> !is_white_space(s[from])
            },
    decreases s.len(),
{
    if s.len() > 0 && is_white_space(s[0]) {
        let rest = s.drop_first();
        lemma_start_is_trimmed(rest);
        let from = choose|from: int|
            {
                &&& 0 <= from <= rest.len()
                &&& #[trigger] rest.subrange(from, rest.len() as int) == trimmed_start(rest)
                &&& forall|i: int| 0 <= i < from ==> is_white_space(#[trigger] rest[i])
                &&& from < rest.len() ==> !is_white_space(rest[from])
            };
        assert(s.subrange(from + 1, s.len() as int) =~= rest.subrange(from, rest.len() as int));
        assert forall|i: int| 0 <= i < from + 1 implies is_white_space(#[trigger] s[i]) by {
            if i > 0 {
                assert(s[i] == rest[i - 1]);
            }
        }
    } else {
        assert(s.subrange(0, s.len() as int) =~= s);
    }
}

proof fn lemma_end_is_trimmed(s: Seq<char>)
    ensures
        exists|end: int|
            {
                &&& 0 <= end <= s.len()
                &&& #[trigger] s.subrange(0, end) == trimmed_end(s)
                &&& forall|i: int| end <= i < s.len() ==> is_white_space(#[trigger] s[i])
                &&& end > 0 ==> !is_white_space(s[end - 1])
            },
    decreases s.len(),
{
    if s.len() > 0 && is_white_space(s.last()) {
        let rest = s.drop_last();
        lemma_end_is_trimmed(rest);
        let end = choose|end: int|
            {
                &&& 0 <= end <= rest.len()
                &&& #[trigger] rest.subrange(0, end) == trimmed_end(rest)
                &&& forall|i: int| end <= i < rest.len() ==> is_white_space(#[trigger] rest[i])
                &&& end > 0 ==> !is_white_space(rest[end - 1])
            };
        assert(s.subrange(0, end) =~= rest.subrange(0, end));
        assert forall|i: int| end <= i < s.len() implies is_white_space(#[trigger] s[i]) by {
            if i < rest.len() {
                assert(s[i] == rest[i]);
            }
        }
    } else {
        assert(s.subrange(0, s.len() as int) =~= s);
    }
}

} // verus!
