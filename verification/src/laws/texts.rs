//! Promises about texts and numbers.

use crate::decimal;
use crate::text;
use crate::text::{first_word_of, is_whitespace, joined, lines_of, trim_end, trim_start, trimmed};
use vstd::prelude::*;

verus! {

/// The word stands in the text from a position on.
pub open spec fn stands_at(s: Seq<char>, word: Seq<char>, at: int) -> bool {
    0 <= at && at + word.len() <= s.len() && s.subrange(at, at + word.len()) == word
}

/// The word stands somewhere in the text.
pub open spec fn stands_in(s: Seq<char>, word: Seq<char>) -> bool {
    exists|at: int| stands_at(s, word, at)
}

/// A word is found just where it stands in the text.
pub proof fn lemma_occurs(s: Seq<char>, word: Seq<char>)
    ensures
        text::occurs_in(s, word) <==> stands_in(s, word),
{
    if text::occurs_in(s, word) {
        let at = choose|at: int| text::occurs_at(s, word, at);
        assert(stands_at(s, word, at));
    }
    if stands_in(s, word) {
        let at = choose|at: int| stands_at(s, word, at);
        assert(text::occurs_at(s, word, at));
    }
}

/// The characters that are whitespace, by their numbers: the tab, the line
/// breaks, the space and the other spaces of Unicode.
pub open spec fn blanks() -> Seq<u32> {
    seq![
        0x9u32, 0xa, 0xb, 0xc, 0xd, 0x20, 0x85, 0xa0, 0x1680, 0x2000, 0x2001, 0x2002, 0x2003,
        0x2004, 0x2005, 0x2006, 0x2007, 0x2008, 0x2009, 0x200a, 0x2028, 0x2029, 0x202f, 0x205f,
        0x3000,
    ]
}

/// Just these characters are whitespace.
pub proof fn theorem_whitespace(c: char)
    ensures
        is_whitespace(c) <==> blanks().contains(c as u32),
{
    let s = blanks();
    assert(s[0] == 0x9 && s[1] == 0xa && s[2] == 0xb && s[3] == 0xc && s[4] == 0xd);
    assert(s[5] == 0x20 && s[6] == 0x85 && s[7] == 0xa0 && s[8] == 0x1680 && s[9] == 0x2000);
    assert(s[10] == 0x2001 && s[11] == 0x2002 && s[12] == 0x2003 && s[13] == 0x2004);
    assert(s[14] == 0x2005 && s[15] == 0x2006 && s[16] == 0x2007 && s[17] == 0x2008);
    assert(s[18] == 0x2009 && s[19] == 0x200a && s[20] == 0x2028 && s[21] == 0x2029);
    assert(s[22] == 0x202f && s[23] == 0x205f && s[24] == 0x3000);
}

/// Nothing but whitespace.
pub open spec fn is_blank(s: Seq<char>) -> bool {
    forall|i: int| 0 <= i < s.len() ==> is_whitespace(#[trigger] s[i])
}

proof fn lemma_trim_start(left: Seq<char>, s: Seq<char>)
    requires
        is_blank(left),
    ensures
        trim_start(left + s) == trim_start(s),
    decreases left.len(),
{
    if left.len() == 0 {
        assert(left + s =~= s);
    } else {
        assert((left + s)[0] == left[0]);
        assert((left + s).skip(1) =~= left.skip(1) + s);
        lemma_trim_start(left.skip(1), s);
    }
}

proof fn lemma_trim_end(s: Seq<char>, right: Seq<char>)
    requires
        is_blank(right),
    ensures
        trim_end(s + right) == trim_end(s),
    decreases right.len(),
{
    if right.len() == 0 {
        assert(s + right =~= s);
    } else {
        assert((s + right).last() == right.last());
        assert((s + right).drop_last() =~= s + right.drop_last());
        lemma_trim_end(s, right.drop_last());
    }
}

/// Trimming takes the whitespace off both ends and nothing else.
pub proof fn theorem_trimmed(left: Seq<char>, s: Seq<char>, right: Seq<char>)
    requires
        is_blank(left),
        is_blank(right),
        s.len() > 0 ==> !is_whitespace(s[0]) && !is_whitespace(s.last()),
    ensures
        trimmed(left + s + right) == s,
{
    if s.len() == 0 {
        assert(left + s + right =~= left + right);
        assert(is_blank(left + right));
        assert(left + right =~= (left + right) + Seq::empty());
        lemma_trim_start(left + right, Seq::empty());
    } else {
        assert(left + s + right =~= left + (s + right));
        lemma_trim_start(left, s + right);
        assert((s + right)[0] == s[0]);
        lemma_trim_end(s, right);
    }
}

/// The first word begins with the first character that is no whitespace and
/// ends before the next whitespace.
pub proof fn theorem_first_word(left: Seq<char>, word: Seq<char>, rest: Seq<char>)
    requires
        is_blank(left),
        forall|i: int| 0 <= i < word.len() ==> !is_whitespace(#[trigger] word[i]),
        rest.len() > 0 ==> word.len() > 0 && is_whitespace(rest[0]),
    ensures
        first_word_of(left + word + rest) == word,
{
    let s = word + rest;
    assert(left + word + rest =~= left + s);
    lemma_trim_start(left, s);
    if word.len() > 0 {
        assert(s[0] == word[0]);
        lemma_word_len(word, rest);
        assert(s.take(word.len() as int) =~= word);
    } else {
        assert(s =~= Seq::empty());
        assert(first_word_of(left + s) =~= word);
    }
}

proof fn lemma_word_len(word: Seq<char>, rest: Seq<char>)
    requires
        forall|i: int| 0 <= i < word.len() ==> !is_whitespace(#[trigger] word[i]),
        rest.len() > 0 ==> is_whitespace(rest[0]),
    ensures
        text::word_len(word + rest) == word.len(),
    decreases word.len(),
{
    if word.len() > 0 {
        assert((word + rest)[0] == word[0]);
        assert((word + rest).skip(1) =~= word.skip(1) + rest);
        lemma_word_len(word.skip(1), rest);
    } else {
        assert(word + rest =~= rest);
    }
}

proof fn lemma_run_len(s: Seq<char>, rest: Seq<char>)
    requires
        text::is_free_of(s, '\n'),
        rest.len() > 0 ==> rest[0] == '\n',
    ensures
        text::run_len(s + rest, '\n') == s.len(),
    decreases s.len(),
{
    if s.len() > 0 {
        assert((s + rest)[0] == s[0]);
        assert((s + rest).skip(1) =~= s.skip(1) + rest);
        assert forall|i: int| 0 <= i < s.skip(1).len() implies #[trigger] s.skip(1)[i] != '\n' by {
            assert(s[i + 1] != '\n');
        }
        lemma_run_len(s.skip(1), rest);
    } else {
        assert(s + rest =~= rest);
    }
}

/// A line ends at the first line feed, without a carriage return before it, and
/// the lines behind it do not hang on it. What stands behind the last line feed
/// is a line of its own.
pub proof fn theorem_first_line(line: Seq<char>, rest: Seq<char>)
    requires
        text::is_free_of(line, '\n'),
    ensures
        line.len() > 0 ==> lines_of(line) == seq![line],
        lines_of(Seq::empty()).len() == 0,
        lines_of(line + seq!['\n'] + rest).len() == 1 + lines_of(rest).len(),
        lines_of(line + seq!['\n'] + rest).skip(1) == lines_of(rest),
        lines_of(line + seq!['\n'] + rest)[0] == if line.len() > 0 && line.last() == '\r' {
            line.drop_last()
        } else {
            line
        },
{
    lemma_run_len(line, Seq::empty());
    assert(line + Seq::empty() =~= line);
    let s = line + seq!['\n'] + rest;
    assert(s =~= line + (seq!['\n'] + rest));
    lemma_run_len(line, seq!['\n'] + rest);
    assert(s.take(line.len() as int) =~= line);
    assert(s.skip(line.len() as int + 1) =~= rest);
    assert(lines_of(s).skip(1) =~= lines_of(rest));
}

/// Joining puts the separator between the parts, and nothing at the ends.
pub proof fn theorem_joined(a: Seq<Seq<char>>, b: Seq<Seq<char>>, part: Seq<char>, sep: Seq<char>)
    ensures
        joined(Seq::empty(), sep).len() == 0,
        joined(seq![part], sep) == part,
        a.len() > 0 && b.len() > 0 ==> joined(a + b, sep) == joined(a, sep) + sep + joined(b, sep),
    decreases b.len(),
{
    if a.len() > 0 && b.len() > 0 {
        assert((a + b).drop_last() =~= a + b.drop_last());
        assert((a + b).last() == b.last());
        if b.len() == 1 {
            assert(a + b.drop_last() =~= a);
        } else {
            theorem_joined(a, b.drop_last(), part, sep);
            assert(joined(a + b, sep) =~= joined(a, sep) + sep + joined(b, sep));
        }
    }
}

/// A digit behind a number makes it ten times as large, and more by the digit.
pub proof fn theorem_digit_behind(s: Seq<char>, c: char)
    requires
        '0' <= c <= '9',
    ensures
        decimal::unsigned(seq![c]) == Some((c as u32 - '0' as u32) as nat),
        decimal::unsigned(s) matches Some(n) ==> decimal::unsigned(s.push(c)) == Some(
            n * 10 + (c as u32 - '0' as u32) as nat,
        ),
{
    reveal_with_fuel(decimal::number, 2);
    assert(seq![c].drop_last() =~= Seq::empty());
    if decimal::unsigned(s) is Some {
        let digits = if s[0] == '+' {
            s.skip(1)
        } else {
            s
        };
        assert(s.push(c)[0] == s[0]);
        assert(s.push(c).skip(1) =~= s.skip(1).push(c));
        assert(digits.push(c).drop_last() =~= digits);
    }
}

/// A plus before a number makes no difference.
pub proof fn theorem_plus(s: Seq<char>)
    requires
        s.len() > 0,
        s[0] != '+',
    ensures
        decimal::unsigned(seq!['+'] + s) == decimal::unsigned(s),
{
    assert((seq!['+'] + s).skip(1) =~= s);
}

/// Nothing and a mere plus are no numbers, and neither is a text with anything
/// else than digits behind its sign.
pub proof fn theorem_no_number(s: Seq<char>, i: int)
    requires
        s.len() == 0 || s =~= seq!['+'] || (0 <= i < s.len() && !('0' <= s[i] <= '9') && (i > 0
            || s[0] != '+')),
    ensures
        decimal::unsigned(s) is None,
{
    if s.len() > 0 && s[0] == '+' && i > 0 && i < s.len() {
        assert(s.skip(1)[i - 1] == s[i]);
        assert(!decimal::is_digit(s.skip(1)[i - 1]));
    } else if 0 <= i < s.len() && s[0] != '+' {
        assert(!decimal::is_digit(s[i]));
    }
}

/// A number is read where it is within the bound, and else not.
pub proof fn theorem_bounded(s: Seq<char>, max: nat)
    ensures
        decimal::unsigned(s) matches Some(n) ==> decimal::unsigned_up_to(s, max) == if n <= max {
            Some(n)
        } else {
            None
        },
        decimal::unsigned(s) is None ==> decimal::unsigned_up_to(s, max) is None,
{
}

/// A number is written with digits that stand for it, and no zero leads.
pub proof fn theorem_written(n: nat)
    ensures
        decimal::unsigned(decimal::digits_of(n)) == Some(n),
        decimal::digits_of(n).len() > 1 ==> decimal::digits_of(n)[0] != '0',
        forall|i: int|
            0 <= i < decimal::digits_of(n).len() ==> '0' <= #[trigger] decimal::digits_of(n)[i]
                <= '9',
    decreases n,
{
    decimal::theorem_digits_read_back(n, n);
    decimal::lemma_digits_of(n);
    assert forall|i: int| 0 <= i < decimal::digits_of(n).len() implies '0'
        <= #[trigger] decimal::digits_of(n)[i] <= '9' by {
        assert(decimal::is_digit(decimal::digits_of(n)[i]));
    }
    if n >= 10 {
        theorem_written(n / 10);
        decimal::lemma_digits_of(n / 10);
        assert(decimal::digits_of(n)[0] == decimal::digits_of(n / 10)[0]);
        if decimal::digits_of(n / 10).len() == 1 {
            reveal_with_fuel(decimal::digits_of, 2);
        }
    }
}

/// In lower case a text keeps its length, each of the letters `A` to `Z` stands
/// as the letter 32 places on, and everything else stands as it was.
pub proof fn theorem_lower_case(s: Seq<char>, i: int)
    requires
        0 <= i < s.len(),
    ensures
        text::ascii_lowercase(s).len() == s.len(),
        'A' <= s[i] <= 'Z' ==> text::ascii_lowercase(s)[i] as u32 == s[i] as u32 + 32,
        s[i] < 'A' || 'Z' < s[i] ==> text::ascii_lowercase(s)[i] == s[i],
        text::is_ascii_text(s) ==> (s[i] as u32) < 128,
        s.len() == 1 ==> (text::is_ascii_text(s) <==> (s[0] as u32) < 128),
{
}

/// Two texts one behind the other are ASCII just where both are.
pub proof fn theorem_ascii(s: Seq<char>, t: Seq<char>)
    ensures
        text::is_ascii_text(s + t) <==> text::is_ascii_text(s) && text::is_ascii_text(t),
{
    if text::is_ascii_text(s + t) {
        assert forall|i: int| 0 <= i < s.len() implies #[trigger] s[i] as u32 <= 0x7f by {
            assert((s + t)[i] == s[i]);
        }
        assert forall|i: int| 0 <= i < t.len() implies #[trigger] t[i] as u32 <= 0x7f by {
            assert((s + t)[s.len() + i] == t[i]);
        }
    }
}

} // verus!
