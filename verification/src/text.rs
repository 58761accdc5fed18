//! Text handled as sequences of characters: comparison, trimming, splitting
//! into lines and joining, each with an executable counterpart.

use vstd::prelude::*;
use vstd::utf8::{decode_utf8, valid_utf8};

verus! {

/// `String::push` appends one character to the end of the string.
pub assume_specification[ String::push ](s: &mut String, c: char)
    ensures
        final(s)@ == old(s)@.push(c),
;

/// The Unicode property `White_Space`.
pub open spec fn is_whitespace(c: char) -> bool {
    let n = c as u32;
    ||| 0x9 <= n <= 0xd
    ||| n == 0x20
    ||| n == 0x85
    ||| n == 0xa0
    ||| n == 0x1680
    ||| 0x2000 <= n <= 0x200a
    ||| n == 0x2028
    ||| n == 0x2029
    ||| n == 0x202f
    ||| n == 0x205f
    ||| n == 0x3000
}

/// `s` without its leading whitespace.
pub open spec fn trim_start(s: Seq<char>) -> Seq<char>
    decreases s.len(),
{
    if s.len() > 0 && is_whitespace(s[0]) {
        trim_start(s.skip(1))
    } else {
        s
    }
}

/// `s` without its trailing whitespace.
pub open spec fn trim_end(s: Seq<char>) -> Seq<char>
    decreases s.len(),
{
    if s.len() > 0 && is_whitespace(s.last()) {
        trim_end(s.drop_last())
    } else {
        s
    }
}

/// `s` without its leading and trailing whitespace.
pub open spec fn trimmed(s: Seq<char>) -> Seq<char> {
    trim_end(trim_start(s))
}

/// `part` stands in `s` from position `at` on.
pub open spec fn occurs_at(s: Seq<char>, part: Seq<char>, at: int) -> bool {
    &&& 0 <= at
    &&& at + part.len() <= s.len()
    &&& s.subrange(at, at + part.len()) == part
}

/// `part` stands somewhere in `s`.
pub open spec fn occurs_in(s: Seq<char>, part: Seq<char>) -> bool {
    exists|at: int| occurs_at(s, part, at)
}

/// The number of characters before the first `stop`, or of all of them.
pub open spec fn run_len(s: Seq<char>, stop: char) -> nat
    decreases s.len(),
{
    if s.len() == 0 || s[0] == stop {
        0
    } else {
        1 + run_len(s.skip(1), stop)
    }
}

/// The pieces of `s` between the occurrences of `sep`.
pub open spec fn split_on(s: Seq<char>, sep: char) -> Seq<Seq<char>>
    decreases s.len(),
{
    let n = run_len(s, sep) as int;
    if n >= s.len() {
        seq![s]
    } else {
        seq![s.take(n)] + split_on(s.skip(n + 1), sep)
    }
}

/// A line without the carriage return that belongs to its line ending.
pub open spec fn without_return(line: Seq<char>) -> Seq<char> {
    if line.len() > 0 && line.last() == '\r' {
        line.drop_last()
    } else {
        line
    }
}

/// The lines of a text. A line ends with `\n` or `\r\n`; the ending is not
/// part of the line, and the last line need not have one.
pub open spec fn lines_of(s: Seq<char>) -> Seq<Seq<char>>
    decreases s.len(),
{
    let n = run_len(s, '\n') as int;
    if s.len() == 0 {
        Seq::empty()
    } else if n >= s.len() {
        seq![s]
    } else {
        seq![without_return(s.take(n))] + lines_of(s.skip(n + 1))
    }
}

/// The parts one after the other, with `sep` between each two.
pub open spec fn joined(parts: Seq<Seq<char>>, sep: Seq<char>) -> Seq<char>
    decreases parts.len(),
{
    if parts.len() == 0 {
        Seq::empty()
    } else if parts.len() == 1 {
        parts[0]
    } else {
        joined(parts.drop_last(), sep) + sep + parts.last()
    }
}

/// No character of the text is `c`.
pub open spec fn is_free_of(s: Seq<char>, c: char) -> bool {
    forall|i: int| 0 <= i < s.len() ==> #[trigger] s[i] != c
}

/// A run ends at the first `stop`.
proof fn lemma_run_len(s: Seq<char>, stop: char)
    ensures
        run_len(s, stop) <= s.len(),
        is_free_of(s.take(run_len(s, stop) as int), stop),
        run_len(s, stop) < s.len() ==> s[run_len(s, stop) as int] == stop,
    decreases s.len(),
{
    if s.len() > 0 && s[0] != stop {
        lemma_run_len(s.skip(1), stop);
        let n = run_len(s, stop) as int;
        assert forall|i: int| 0 <= i < n implies #[trigger] s.take(n)[i] != stop by {
            if i > 0 {
                assert(s.skip(1).take(n - 1)[i - 1] != stop);
            }
        }
    }
}

/// A text without `stop` is one run, whatever follows the next `stop`.
proof fn lemma_run_len_of(s: Seq<char>, stop: char, rest: Seq<char>)
    requires
        is_free_of(s, stop),
    ensures
        run_len(s, stop) == s.len(),
        run_len(s + seq![stop] + rest, stop) == s.len(),
    decreases s.len(),
{
    if s.len() > 0 {
        let tail = s.skip(1);
        lemma_run_len_of(tail, stop, rest);
        assert((s + seq![stop] + rest).skip(1) =~= tail + seq![stop] + rest);
    }
}

/// The first part, and behind a separator the others.
proof fn lemma_joined_first(parts: Seq<Seq<char>>, sep: Seq<char>)
    requires
        parts.len() > 1,
    ensures
        joined(parts, sep) == parts[0] + sep + joined(parts.skip(1), sep),
    decreases parts.len(),
{
    let init = parts.drop_last();
    if parts.len() == 2 {
        assert(joined(init, sep) == parts[0]);
    } else {
        lemma_joined_first(init, sep);
        assert(init.skip(1) =~= parts.skip(1).drop_last());
    }
}

/// Parts that are free of the separator are found again when what was joined is
/// split.
pub proof fn theorem_split_joined(parts: Seq<Seq<char>>, sep: char)
    requires
        parts.len() > 0,
        forall|i: int| 0 <= i < parts.len() ==> is_free_of(#[trigger] parts[i], sep),
    ensures
        split_on(joined(parts, seq![sep]), sep) == parts,
    decreases parts.len(),
{
    let all = joined(parts, seq![sep]);
    if parts.len() == 1 {
        lemma_run_len_of(parts[0], sep, Seq::empty());
    } else {
        let rest = parts.skip(1);
        let n = parts[0].len() as int;
        lemma_joined_first(parts, seq![sep]);
        theorem_split_joined(rest, sep);
        lemma_run_len_of(parts[0], sep, joined(rest, seq![sep]));
        assert(all.take(n) =~= parts[0]);
        assert(all.skip(n + 1) =~= joined(rest, seq![sep]));
    }
}

/// The pieces of a text, joined again, are the text, and they are free of the
/// separator.
pub proof fn theorem_joined_split(s: Seq<char>, sep: char)
    ensures
        split_on(s, sep).len() > 0,
        joined(split_on(s, sep), seq![sep]) == s,
        forall|i: int|
            0 <= i < split_on(s, sep).len() ==> is_free_of(#[trigger] split_on(s, sep)[i], sep),
    decreases s.len(),
{
    lemma_run_len(s, sep);
    let n = run_len(s, sep) as int;
    let pieces = split_on(s, sep);
    if n >= s.len() {
        assert(s.take(n) =~= s);
    } else {
        let rest = s.skip(n + 1);
        theorem_joined_split(rest, sep);
        assert(pieces.skip(1) =~= split_on(rest, sep));
        lemma_joined_first(pieces, seq![sep]);
    }
}

/// Lines are free of line feeds.
pub proof fn theorem_lines(s: Seq<char>)
    ensures
        forall|i: int| 0 <= i < lines_of(s).len() ==> is_free_of(#[trigger] lines_of(s)[i], '\n'),
    decreases s.len(),
{
    lemma_run_len(s, '\n');
    let n = run_len(s, '\n') as int;
    let lines = lines_of(s);
    if n >= s.len() {
        assert(s.take(n) =~= s);
    } else {
        theorem_lines(s.skip(n + 1));
        assert forall|i: int| 0 <= i < lines.len() implies is_free_of(
            #[trigger] lines[i],
            '\n',
        ) by {
            if i > 0 {
                assert(lines[i] == lines_of(s.skip(n + 1))[i - 1]);
            }
        }
    }
}

/// The lines of joined parts are the parts, but for a carriage return at their
/// end and an empty part at the end of all.
pub proof fn theorem_lines_joined(parts: Seq<Seq<char>>, i: int)
    requires
        forall|k: int| 0 <= k < parts.len() ==> is_free_of(#[trigger] parts[k], '\n'),
        0 <= i < lines_of(joined(parts, seq!['\n'])).len(),
    ensures
        i < parts.len(),
        lines_of(joined(parts, seq!['\n']))[i] == parts[i] || lines_of(
            joined(parts, seq!['\n']),
        )[i] == without_return(parts[i]),
    decreases parts.len(),
{
    let all = joined(parts, seq!['\n']);
    if parts.len() == 1 {
        lemma_run_len_of(parts[0], '\n', Seq::empty());
    } else if parts.len() > 1 {
        let rest = parts.skip(1);
        let n = parts[0].len() as int;
        lemma_joined_first(parts, seq!['\n']);
        lemma_run_len_of(parts[0], '\n', joined(rest, seq!['\n']));
        assert(all.skip(n + 1) =~= joined(rest, seq!['\n']));
        if i > 0 {
            theorem_lines_joined(rest, i - 1);
        }
    }
}

/// Whitespace at the end makes no difference once a text is trimmed.
pub proof fn theorem_trimmed_end(s: Seq<char>, c: char)
    requires
        is_whitespace(c),
    ensures
        trimmed(s.push(c)) == trimmed(s),
    decreases s.len(),
{
    if s.len() == 0 {
        assert(s.push(c).skip(1) =~= s);
    } else if is_whitespace(s[0]) {
        assert(s.push(c).skip(1) =~= s.skip(1).push(c));
        theorem_trimmed_end(s.skip(1), c);
    } else {
        assert(s.push(c).drop_last() =~= s);
    }
}

/// The number of characters before the first whitespace, or of all of them.
pub open spec fn word_len(s: Seq<char>) -> nat
    decreases s.len(),
{
    if s.len() == 0 || is_whitespace(s[0]) {
        0
    } else {
        1 + word_len(s.skip(1))
    }
}

/// The characters from the first that is not whitespace up to the next
/// whitespace; empty if there is none.
pub open spec fn first_word_of(s: Seq<char>) -> Seq<char> {
    trim_start(s).take(word_len(trim_start(s)) as int)
}

/// What stands before the first whitespace is the first word.
pub proof fn theorem_first_word(word: Seq<char>, s: Seq<char>)
    requires
        0 < word.len() < s.len(),
        s.take(word.len() as int) == word,
        forall|i: int| 0 <= i < word.len() ==> !is_whitespace(#[trigger] word[i]),
        is_whitespace(s[word.len() as int]),
    ensures
        first_word_of(s) == word,
{
    lemma_word_len(s, word.len());
    assert(word[0] == s[0]);
}

proof fn lemma_word_len(s: Seq<char>, n: nat)
    requires
        n < s.len(),
        forall|i: int| 0 <= i < n ==> !is_whitespace(#[trigger] s.take(n as int)[i]),
        is_whitespace(s[n as int]),
    ensures
        word_len(s) == n,
    decreases n,
{
    if n > 0 {
        assert(s.take(n as int)[0] == s[0]);
        assert forall|i: int| 0 <= i < n - 1 implies !is_whitespace(
            #[trigger] s.skip(1).take(n - 1)[i],
        ) by {
            assert(s.take(n as int)[i + 1] == s[i + 1]);
        }
        lemma_word_len(s.skip(1), (n - 1) as nat);
    }
}

/// Every character is an ASCII character.
pub open spec fn is_ascii_text(s: Seq<char>) -> bool {
    forall|i: int| 0 <= i < s.len() ==> #[trigger] s[i] as u32 <= 0x7f
}

/// The lower case of an ASCII character.
pub open spec fn ascii_lower(c: char) -> char {
    if 'A' <= c <= 'Z' {
        (c as u32 + 32) as char
    } else {
        c
    }
}

/// The lower case of an ASCII text.
pub open spec fn ascii_lowercase(s: Seq<char>) -> Seq<char> {
    s.map_values(|c: char| ascii_lower(c))
}

/// A trimmed ASCII text is an ASCII text.
pub proof fn theorem_trimmed_ascii(s: Seq<char>)
    requires
        is_ascii_text(s),
    ensures
        is_ascii_text(trimmed(s)),
    decreases s.len(),
{
    if s.len() > 0 && is_whitespace(s[0]) {
        theorem_trimmed_ascii(s.skip(1));
    } else {
        lemma_trim_end_ascii(s);
    }
}

proof fn lemma_trim_end_ascii(s: Seq<char>)
    requires
        is_ascii_text(s),
    ensures
        is_ascii_text(trim_end(s)),
    decreases s.len(),
{
    if s.len() > 0 && is_whitespace(s.last()) {
        lemma_trim_end_ascii(s.drop_last());
    }
}

/// What `str::to_lowercase` makes of a text.
pub uninterp spec fn lowercase(s: Seq<char>) -> Seq<char>;

/// `str::to_lowercase` maps a text to its lower case by the Unicode tables of
/// the standard library. The contract says that equal texts are mapped alike,
/// and what becomes of ASCII texts.
pub assume_specification[ str::to_lowercase ](s: &str) -> (r: String)
    ensures
        r@ == lowercase(s@),
        is_ascii_text(s@) ==> r@ == ascii_lowercase(s@),
;

/// What `String::from_utf8_lossy` makes of bytes.
pub uninterp spec fn utf8_lossy(bytes: Seq<u8>) -> Seq<char>;

/// `String::from_utf8_lossy` decodes valid UTF-8. What stands in the place of
/// bytes that are no UTF-8 is left to the standard library.
#[verifier::external_body]
pub(crate) fn decode_lossy(bytes: &[u8]) -> (r: String)
    ensures
        r@ == utf8_lossy(bytes@),
        valid_utf8(bytes@) ==> r@ == decode_utf8(bytes@),
{
    String::from_utf8_lossy(bytes).into_owned()
}

/// The characters of `s`.
pub fn to_chars(s: &str) -> (r: Vec<char>)
    ensures
        r@ == s@,
{
    let mut v: Vec<char> = Vec::new();
    for c in it: s.chars()
        invariant
            v@ == s@.take(it.index()),
            it.seq() == s@,
    {
        v.push(c);
    }
    v
}

/// The string of the characters from `from` up to `to`.
pub fn from_chars(cs: &Vec<char>, from: usize, to: usize) -> (r: String)
    requires
        from <= to <= cs@.len(),
    ensures
        r@ == cs@.subrange(from as int, to as int),
{
    let mut s = String::new();
    let mut i: usize = from;
    while i < to
        invariant
            from <= i <= to <= cs@.len(),
            s@ == cs@.subrange(from as int, i as int),
        decreases to - i,
    {
        s.push(cs[i]);
        i += 1;
    }
    s
}

/// Whether two texts hold the same characters.
pub fn same(a: &str, b: &str) -> (r: bool)
    ensures
        r == (a@ == b@),
{
    a.to_owned() == b.to_owned()
}

/// `a` followed by `b`.
pub fn cat(a: &str, b: &str) -> (r: String)
    ensures
        r@ == a@ + b@,
{
    let mut s = a.to_owned();
    s.append(b);
    s
}

/// Whether `c` is whitespace.
pub fn white(c: char) -> (r: bool)
    ensures
        r == is_whitespace(c),
{
    let n: u32 = c as u32;
    (0x9 <= n && n <= 0xd) || n == 0x20 || n == 0x85 || n == 0xa0 || n == 0x1680 || (0x2000 <= n
        && n <= 0x200a) || n == 0x2028 || n == 0x2029 || n == 0x202f || n == 0x205f || n == 0x3000
}

/// The position of the first character that is not whitespace, or the end.
fn skip_white(cs: &Vec<char>) -> (from: usize)
    ensures
        from <= cs@.len(),
        cs@.skip(from as int) == trim_start(cs@),
{
    let mut from: usize = 0;
    assert(cs@.skip(0) == cs@);
    while from < cs.len() && white(cs[from])
        invariant
            from <= cs@.len(),
            trim_start(cs@) == trim_start(cs@.skip(from as int)),
        decreases cs@.len() - from,
    {
        assert(cs@.skip(from as int).skip(1) == cs@.skip(from + 1));
        from += 1;
    }
    from
}

/// `s` without its leading and trailing whitespace.
pub fn trim(s: &str) -> (r: String)
    ensures
        r@ == trimmed(s@),
{
    let cs = to_chars(s);
    let from = skip_white(&cs);
    let ghost rest = cs@.skip(from as int);
    let mut to: usize = cs.len();
    while to > from && white(cs[to - 1])
        invariant
            from <= to <= cs@.len(),
            trim_end(rest) == trim_end(cs@.subrange(from as int, to as int)),
        decreases to,
    {
        assert(cs@.subrange(from as int, to as int).drop_last() == cs@.subrange(
            from as int,
            to - 1,
        ));
        to -= 1;
    }
    from_chars(&cs, from, to)
}

/// The first word of `s`; empty if there is none.
pub fn first_word(s: &str) -> (r: String)
    ensures
        r@ == first_word_of(s@),
{
    let cs = to_chars(s);
    let from = skip_white(&cs);
    let ghost rest = cs@.skip(from as int);
    let mut to: usize = from;
    assert(rest.skip(0) == rest);
    while to < cs.len() && !white(cs[to])
        invariant
            from <= to <= cs@.len(),
            rest == cs@.skip(from as int),
            word_len(rest) == to - from + word_len(rest.skip(to - from)),
        decreases cs@.len() - to,
    {
        assert(rest.skip(to - from).skip(1) == rest.skip(to + 1 - from));
        to += 1;
    }
    from_chars(&cs, from, to)
}

/// Whether `part` stands in `s` from position `at` on.
fn matches_at(s: &Vec<char>, part: &Vec<char>, at: usize) -> (r: bool)
    requires
        at + part@.len() <= s@.len(),
    ensures
        r == occurs_at(s@, part@, at as int),
{
    let n: usize = s.len();
    let mut i: usize = 0;
    while i < part.len()
        invariant
            i <= part@.len(),
            at + part@.len() <= s@.len(),
            s@.len() == n,
            forall|j: int| 0 <= j < i ==> s@[at + j] == part@[j],
        decreases part@.len() - i,
    {
        if s[at + i] != part[i] {
            return false;
        }
        i += 1;
    }
    assert(s@.subrange(at as int, at + part@.len()) =~= part@);
    true
}

/// Whether `s` begins with `part`.
pub fn starts_with(s: &str, part: &str) -> (r: bool)
    ensures
        r == part@.is_prefix_of(s@),
{
    let cs = to_chars(s);
    let ps = to_chars(part);
    ps.len() <= cs.len() && matches_at(&cs, &ps, 0)
}

/// Whether `part` stands somewhere in `s`.
pub fn contains(s: &str, part: &str) -> (r: bool)
    ensures
        r == occurs_in(s@, part@),
{
    let cs = to_chars(s);
    let ps = to_chars(part);
    if ps.len() > cs.len() {
        return false;
    }
    let last: usize = cs.len() - ps.len();
    let mut at: usize = 0;
    while at < last
        invariant
            at <= last,
            last + ps@.len() == cs@.len(),
            cs@ == s@,
            ps@ == part@,
            forall|j: int| 0 <= j < at ==> !occurs_at(s@, part@, j),
        decreases last - at,
    {
        if matches_at(&cs, &ps, at) {
            return true;
        }
        at += 1;
    }
    matches_at(&cs, &ps, last)
}

/// The position of the first `stop` from `from` on, or the end.
fn run_end(cs: &Vec<char>, from: usize, stop: char) -> (to: usize)
    requires
        from <= cs@.len(),
    ensures
        from <= to <= cs@.len(),
        to == from + run_len(cs@.skip(from as int), stop),
        to < cs@.len() ==> cs@[to as int] == stop,
{
    let ghost rest = cs@.skip(from as int);
    let mut to: usize = from;
    assert(rest.skip(0) == rest);
    while to < cs.len() && cs[to] != stop
        invariant
            from <= to <= cs@.len(),
            rest == cs@.skip(from as int),
            run_len(rest, stop) == to - from + run_len(rest.skip(to - from), stop),
        decreases cs@.len() - to,
    {
        assert(rest.skip(to - from).skip(1) == rest.skip(to + 1 - from));
        to += 1;
    }
    to
}

/// The pieces of `s` between the occurrences of `sep`.
pub fn split(s: &str, sep: char) -> (r: Vec<String>)
    ensures
        r.deep_view() == split_on(s@, sep),
{
    let cs = to_chars(s);
    let mut out: Vec<String> = Vec::new();
    let mut from: usize = 0;
    assert(cs@.skip(0) == cs@);
    loop
        invariant
            from <= cs@.len(),
            split_on(cs@, sep) == out.deep_view() + split_on(cs@.skip(from as int), sep),
            cs@ == s@,
        decreases cs@.len() - from,
    {
        let ghost rest = cs@.skip(from as int);
        let to = run_end(&cs, from, sep);
        let piece = from_chars(&cs, from, to);
        out.push(piece);
        assert(rest.take(to - from) =~= piece@);
        if to == cs.len() {
            return out;
        }
        proof {
            assert(rest.skip(to - from + 1) =~= cs@.skip(to + 1));
        }
        from = to + 1;
    }
}

/// The lines of `s`.
pub fn lines(s: &str) -> (r: Vec<String>)
    ensures
        r.deep_view() == lines_of(s@),
{
    let cs = to_chars(s);
    let mut out: Vec<String> = Vec::new();
    let mut from: usize = 0;
    assert(cs@.skip(0) == cs@);
    while from < cs.len()
        invariant
            from <= cs@.len(),
            lines_of(cs@) == out.deep_view() + lines_of(cs@.skip(from as int)),
        decreases cs@.len() - from,
    {
        let ghost rest = cs@.skip(from as int);
        let to = run_end(&cs, from, '\n');
        if to == cs.len() {
            let line = from_chars(&cs, from, to);
            out.push(line);
            from = to;
        } else {
            let end: usize = if to > from && cs[to - 1] == '\r' {
                to - 1
            } else {
                to
            };
            let line = from_chars(&cs, from, end);
            out.push(line);
            proof {
                let n = to - from;
                assert(without_return(rest.take(n)) =~= line@);
                assert(rest.skip(n + 1) =~= cs@.skip(to + 1));
            }
            from = to + 1;
        }
    }
    out
}

/// The parts one after the other, with `sep` between each two.
pub fn join(parts: &Vec<String>, sep: &str) -> (r: String)
    ensures
        r@ == joined(parts.deep_view(), sep@),
{
    let mut out = String::new();
    let mut i: usize = 0;
    while i < parts.len()
        invariant
            i <= parts@.len(),
            out@ == joined(parts.deep_view().take(i as int), sep@),
        decreases parts@.len() - i,
    {
        if i > 0 {
            out.append(sep);
        }
        out.append(parts[i].as_str());
        assert(parts.deep_view().take(i + 1).drop_last() =~= parts.deep_view().take(i as int));
        i += 1;
    }
    assert(parts.deep_view().take(i as int) =~= parts.deep_view());
    out
}

} // verus!
