//! Command line arguments and the values that flags take.

use crate::decimal;
use crate::text;
use vstd::prelude::*;

verus! {

/// What follows the first `flag`: nothing at all if there is no such flag,
/// `Some(None)` if it is the last argument, else the argument behind it.
pub open spec fn value_of(args: Seq<Seq<char>>, flag: Seq<char>) -> Option<Option<Seq<char>>>
    decreases args.len(),
{
    if args.len() == 0 {
        None
    } else if args[0] == flag {
        if args.len() == 1 {
            Some(None)
        } else {
            Some(Some(args[1]))
        }
    } else {
        value_of(args.skip(1), flag)
    }
}

/// A word that can be the value of a flag: not empty and not a flag itself.
pub open spec fn is_word(s: Seq<char>) -> bool {
    s.len() > 0 && s[0] != '-'
}

/// The trimmed argument behind the first `flag` that a word follows.
pub open spec fn word_of(args: Seq<Seq<char>>, flag: Seq<char>) -> Option<Seq<char>>
    decreases args.len(),
{
    if args.len() == 0 {
        None
    } else if args[0] == flag && args.len() > 1 && is_word(text::trimmed(args[1])) {
        Some(text::trimmed(args[1]))
    } else {
        word_of(args.skip(1), flag)
    }
}

/// An argument of the form `-N`, by its `N`.
pub open spec fn dashed_number(arg: Seq<char>) -> Option<u16> {
    if arg.len() > 1 && arg[0] == '-' {
        match decimal::unsigned_up_to(arg.skip(1), u16::MAX as nat) {
            Some(n) => if n >= 1 {
                Some(n as u16)
            } else {
                None
            },
            None => None,
        }
    } else {
        None
    }
}

/// The `N` of the first argument of the form `-N`.
pub open spec fn first_dashed_number(args: Seq<Seq<char>>) -> Option<u16>
    decreases args.len(),
{
    if args.len() == 0 {
        None
    } else {
        match dashed_number(args[0]) {
            Some(n) => Some(n),
            None => first_dashed_number(args.skip(1)),
        }
    }
}

/// An argument that begins with `-` and ends with `k`.
pub open spec fn is_k_flag(arg: Seq<char>) -> bool {
    arg.len() > 0 && arg[0] == '-' && arg.last() == 'k'
}

/// The first argument that begins with `-` and ends with `k`.
pub open spec fn first_k_flag(args: Seq<Seq<char>>) -> Option<Seq<char>>
    decreases args.len(),
{
    if args.len() == 0 {
        None
    } else if is_k_flag(args[0]) {
        Some(args[0])
    } else {
        first_k_flag(args.skip(1))
    }
}

/// The number of thousands that a flag of the form `-Nk` names.
pub open spec fn thousands(arg: Seq<char>) -> Option<nat> {
    decimal::unsigned_up_to(arg.subrange(1, arg.len() - 1), u16::MAX as nat)
}

/// A flag `-N` names at least one port.
pub proof fn lemma_first_dashed_number(args: Seq<Seq<char>>)
    ensures
        first_dashed_number(args) matches Some(n) ==> n >= 1,
    decreases args.len(),
{
    if args.len() > 0 {
        lemma_first_dashed_number(args.skip(1));
    }
}

/// The first flag that ends with `k` is such a flag.
pub proof fn lemma_first_k_flag(args: Seq<Seq<char>>)
    ensures
        first_k_flag(args) matches Some(arg) ==> is_k_flag(arg),
    decreases args.len(),
{
    if args.len() > 0 && !is_k_flag(args[0]) {
        lemma_first_k_flag(args.skip(1));
    }
}

/// A flag `-N` reads as `N`, for every `N` that is a port count.
pub proof fn theorem_dashed_number(n: u16)
    requires
        n >= 1,
    ensures
        dashed_number(seq!['-'] + decimal::digits_of(n as nat)) == Some(n),
{
    let arg = seq!['-'] + decimal::digits_of(n as nat);
    decimal::theorem_digits_read_back(n as nat, u16::MAX as nat);
    assert(arg.skip(1) =~= decimal::digits_of(n as nat));
    decimal::lemma_digits_of(n as nat);
}

/// A flag `-Nk` reads as `N` thousands.
pub proof fn theorem_thousands(n: u16)
    ensures
        is_k_flag(seq!['-'] + decimal::digits_of(n as nat) + seq!['k']),
        thousands(seq!['-'] + decimal::digits_of(n as nat) + seq!['k']) == Some(n as nat),
{
    let arg = seq!['-'] + decimal::digits_of(n as nat) + seq!['k'];
    decimal::theorem_digits_read_back(n as nat, u16::MAX as nat);
    assert(arg.subrange(1, arg.len() - 1) =~= decimal::digits_of(n as nat));
}

/// A flag that is not there has no value.
pub proof fn lemma_no_flag(args: Seq<Seq<char>>, flag: Seq<char>)
    requires
        !args.contains(flag),
    ensures
        value_of(args, flag) is None,
        word_of(args, flag) is None,
    decreases args.len(),
{
    if args.len() > 0 {
        lemma_no_flag(args.skip(1), flag);
    }
}

/// The value of a flag is what stands behind it, whatever comes before the flag
/// and behind the value.
pub proof fn theorem_value_of(
    before: Seq<Seq<char>>,
    flag: Seq<char>,
    value: Seq<char>,
    behind: Seq<Seq<char>>,
)
    requires
        !before.contains(flag),
    ensures
        value_of(before + seq![flag, value] + behind, flag) == Some(Some(value)),
    decreases before.len(),
{
    let args = before + seq![flag, value] + behind;
    if before.len() > 0 {
        theorem_value_of(before.skip(1), flag, value, behind);
        assert(args.skip(1) =~= before.skip(1) + seq![flag, value] + behind);
    }
}

/// The word behind a flag is found, trimmed, whatever comes before the flag and
/// behind the word.
pub proof fn theorem_word_of(
    before: Seq<Seq<char>>,
    flag: Seq<char>,
    word: Seq<char>,
    behind: Seq<Seq<char>>,
)
    requires
        !before.contains(flag),
        is_word(text::trimmed(word)),
    ensures
        word_of(before + seq![flag, word] + behind, flag) == Some(text::trimmed(word)),
    decreases before.len(),
{
    let args = before + seq![flag, word] + behind;
    if before.len() > 0 {
        theorem_word_of(before.skip(1), flag, word, behind);
        assert(args.skip(1) =~= before.skip(1) + seq![flag, word] + behind);
    }
}

/// Whether `flag` is among the arguments.
pub fn has(args: &[String], flag: &str) -> (r: bool)
    ensures
        r == args.deep_view().contains(flag@),
{
    let mut i: usize = 0;
    while i < args.len()
        invariant
            i <= args@.len(),
            forall|j: int| 0 <= j < i ==> args@[j]@ != flag@,
        decreases args@.len() - i,
    {
        if text::same(args[i].as_str(), flag) {
            assert(args.deep_view()[i as int] == flag@);
            return true;
        }
        i += 1;
    }
    false
}

/// What follows the first `flag`.
pub fn find_value<'a>(args: &'a [String], flag: &str) -> (r: Option<Option<&'a String>>)
    ensures
        match r {
            None => value_of(args.deep_view(), flag@) is None,
            Some(None) => value_of(args.deep_view(), flag@) == Some(None::<Seq<char>>),
            Some(Some(v)) => value_of(args.deep_view(), flag@) == Some(Some(v@)),
        },
{
    let ghost all = args.deep_view();
    let mut i: usize = 0;
    assert(all.skip(0) =~= all);
    while i < args.len()
        invariant
            i <= args@.len(),
            all == args.deep_view(),
            value_of(all, flag@) == value_of(all.skip(i as int), flag@),
        decreases args@.len() - i,
    {
        if text::same(args[i].as_str(), flag) {
            if i + 1 >= args.len() {
                return Some(None);
            }
            return Some(Some(&args[i + 1]));
        }
        assert(all.skip(i as int).skip(1) =~= all.skip(i + 1));
        i += 1;
    }
    None
}

/// The trimmed argument behind the first `flag` that a word follows.
pub fn find_word(args: &[String], flag: &str) -> (r: Option<String>)
    ensures
        r.deep_view() == word_of(args.deep_view(), flag@),
{
    let ghost all = args.deep_view();
    let mut i: usize = 0;
    assert(all.skip(0) =~= all);
    while i < args.len()
        invariant
            i <= args@.len(),
            all == args.deep_view(),
            word_of(all, flag@) == word_of(all.skip(i as int), flag@),
        decreases args@.len() - i,
    {
        if text::same(args[i].as_str(), flag) && i + 1 < args.len() {
            let word = text::trim(args[i + 1].as_str());
            let cs = text::to_chars(word.as_str());
            if cs.len() > 0 && cs[0] != '-' {
                return Some(word);
            }
        }
        assert(all.skip(i as int).skip(1) =~= all.skip(i + 1));
        i += 1;
    }
    None
}

/// The `N` of the first argument of the form `-N`.
pub fn find_dashed_number(args: &[String]) -> (r: Option<u16>)
    ensures
        r == first_dashed_number(args.deep_view()),
{
    let ghost all = args.deep_view();
    let mut i: usize = 0;
    assert(all.skip(0) =~= all);
    while i < args.len()
        invariant
            i <= args@.len(),
            all == args.deep_view(),
            first_dashed_number(all) == first_dashed_number(all.skip(i as int)),
        decreases args@.len() - i,
    {
        let cs = text::to_chars(args[i].as_str());
        if cs.len() > 1 && cs[0] == '-' {
            let rest = text::from_chars(&cs, 1, cs.len());
            match decimal::read(rest.as_str(), u16::MAX as u64) {
                Some(n) => {
                    if n >= 1 {
                        return Some(n as u16);
                    }
                },
                None => {},
            }
        }
        assert(all.skip(i as int).skip(1) =~= all.skip(i + 1));
        i += 1;
    }
    None
}

/// The first argument that begins with `-` and ends with `k`.
pub fn find_k_flag<'a>(args: &'a [String]) -> (r: Option<&'a String>)
    ensures
        r.deep_view() == first_k_flag(args.deep_view()),
{
    let ghost all = args.deep_view();
    let mut i: usize = 0;
    assert(all.skip(0) =~= all);
    while i < args.len()
        invariant
            i <= args@.len(),
            all == args.deep_view(),
            first_k_flag(all) == first_k_flag(all.skip(i as int)),
        decreases args@.len() - i,
    {
        let cs = text::to_chars(args[i].as_str());
        if cs.len() > 0 && cs[0] == '-' && cs[cs.len() - 1] == 'k' {
            return Some(&args[i]);
        }
        assert(all.skip(i as int).skip(1) =~= all.skip(i + 1));
        i += 1;
    }
    None
}

/// The number of thousands that a flag of the form `-Nk` names.
pub fn read_thousands(arg: &str) -> (r: Option<u16>)
    requires
        is_k_flag(arg@),
    ensures
        match r {
            Some(n) => thousands(arg@) == Some(n as nat),
            None => thousands(arg@) is None,
        },
{
    let cs = text::to_chars(arg);
    let number = text::from_chars(&cs, 1, cs.len() - 1);
    match decimal::read(number.as_str(), u16::MAX as u64) {
        Some(n) => Some(n as u16),
        None => None,
    }
}

} // verus!
