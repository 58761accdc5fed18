//! Promises about the questions to the user.

use crate::config::ScanMode;
use crate::decimal;
use crate::error::ErrorView;
use crate::prompts::{
    port_count, port_limit_dialogue, port_limit_of, scan_mode_of, script_choice_of,
    script_dialogue, PortLimitChoice, PortLimitStepView, ScriptChoiceView, ScriptStepView,
};
use crate::text;
use vstd::prelude::*;

verus! {

/// Every selection stands for a mode: the two that have UDP in their name for
/// what they say, any other for TCP.
pub proof fn theorem_scan_mode_selection(selection: Seq<char>)
    ensures
        selection == "UDP"@ ==> scan_mode_of(selection) == ScanMode::Udp,
        selection == "TCP + UDP"@ ==> scan_mode_of(selection) == ScanMode::Both,
        selection != "UDP"@ && selection != "TCP + UDP"@ ==> scan_mode_of(selection)
            == ScanMode::Tcp,
{
    reveal_strlit("UDP");
    reveal_strlit("TCP + UDP");
    assert("TCP + UDP"@.len() != "UDP"@.len());
}

/// A selection that names no port count asks for an entry.
pub proof fn theorem_port_limit_selection(selection: Seq<char>)
    ensures
        port_limit_of(selection) == PortLimitChoice::Entry <==> {
            &&& selection != "1000 (top ports)"@
            &&& selection != "5000"@
            &&& selection != "10000"@
            &&& selection != "65535 (all)"@
        },
{
}

/// The count that a number gives: at least 1.
pub open spec fn counted(n: nat) -> core::result::Result<u16, ErrorView> {
    if n == 0 {
        Err(ErrorView::Validation("Port limit must be at least 1"@))
    } else {
        Ok(n as u16)
    }
}

/// `all` stands for every port, a number for itself, and a range from 0 or 1
/// for its upper end.
pub proof fn theorem_entered_count(input: Seq<char>, end: Seq<char>)
    ensures
        port_count("all"@) == Ok::<u16, ErrorView>(65535),
        decimal::unsigned(input) matches Some(n) ==> n <= 65535 && input != "all"@ ==> port_count(
            input,
        ) == counted(n),
        decimal::unsigned(end) matches Some(n) ==> n <= 65535 ==> port_count("1-"@ + end)
            == counted(n) && port_count("0-"@ + end) == counted(n),
        decimal::unsigned(end) is None || decimal::unsigned(end)->0 > 65535 ==> port_count(
            "1-"@ + end,
        ) is Err && port_count("0-"@ + end) is Err,
{
    reveal_strlit("all");
    reveal_strlit("1-");
    reveal_strlit("0-");
    let one = "1-"@ + end;
    let zero = "0-"@ + end;
    assert(!decimal::is_digit(one[1]));
    assert(!decimal::is_digit(zero[1]));
    assert(one[0] != '+' && zero[0] != '+');
    assert(decimal::unsigned(one) is None);
    assert(decimal::unsigned(zero) is None);
    assert(one[0] != "all"@[0] && zero[0] != "all"@[0]);
    assert("1-"@.is_prefix_of(one));
    assert("0-"@.is_prefix_of(zero));
    assert(one.skip(2) =~= end);
    assert(zero.skip(2) =~= end);
}

/// Any other entry is refused, and the refusal repeats the entry.
pub proof fn theorem_refused_count(input: Seq<char>)
    requires
        input != "all"@,
        decimal::unsigned(input) is None || decimal::unsigned(input)->0 > 65535,
        !"1-"@.is_prefix_of(input),
        !"0-"@.is_prefix_of(input),
    ensures
        port_count(input) == Err::<u16, ErrorView>(
            ErrorView::Config("Invalid port number: "@ + input + ". Use e.g. 2300 or 1-2300"@),
        ),
{
}

/// A selection other than that to enter a filter stands for the category that
/// its first word names.
pub proof fn theorem_script_selection(selection: Seq<char>)
    ensures
        selection == "Custom      Type your own"@ ==> script_choice_of(selection)
            == ScriptChoiceView::Entry,
        selection != "Custom      Type your own"@ && text::first_word_of(selection).len() > 0
            ==> script_choice_of(selection) == ScriptChoiceView::Category(
            text::first_word_of(selection),
        ),
        selection != "Custom      Type your own"@ && text::first_word_of(selection).len() == 0
            ==> script_choice_of(selection) == ScriptChoiceView::Category("vuln"@),
{
}

/// The dialogue about port counts: a selection that names a count ends it, any
/// other leads to an entry, and what is entered counts without the whitespace
/// around it and in lower case.
pub proof fn theorem_port_limit_dialogue(
    option: Seq<char>,
    input: Seq<char>,
    e: Seq<char>,
    entry: Option<core::result::Result<Seq<char>, Seq<char>>>,
    n: u16,
)
    ensures
        port_limit_dialogue(None, entry) == PortLimitStepView::Select,
        port_limit_dialogue(Some(Err(e)), entry) == PortLimitStepView::Done(
            Err(ErrorView::Config("Port prompt failed: "@ + e)),
        ),
        port_limit_of(option) == PortLimitChoice::Limit(n) ==> port_limit_dialogue(
            Some(Ok(option)),
            entry,
        ) == PortLimitStepView::Done(Ok(n)),
        port_limit_of(option) == PortLimitChoice::Entry ==> {
            &&& port_limit_dialogue(Some(Ok(option)), None) == PortLimitStepView::Enter
            &&& port_limit_dialogue(Some(Ok(option)), Some(Err(e))) == PortLimitStepView::Done(
                Err(ErrorView::Config("Port input failed: "@ + e)),
            )
            &&& port_limit_dialogue(Some(Ok(option)), Some(Ok(input))) == PortLimitStepView::Done(
                port_count(text::lowercase(text::trimmed(input))),
            )
        },
{
}

/// The dialogue about scripts: who declines runs none, who chooses a category
/// runs it, and who enters a filter runs the filter as it was entered.
pub proof fn theorem_script_dialogue(
    selection: Option<core::result::Result<Seq<char>, Seq<char>>>,
    entry: Option<core::result::Result<Seq<char>, Seq<char>>>,
    option: Seq<char>,
    filter: Seq<char>,
    e: Seq<char>,
)
    ensures
        ({
            let failed = ScriptStepView::Done(Err(ErrorView::Config("NSE prompt failed: "@ + e)));
            &&& script_dialogue(None, selection, entry) == ScriptStepView::Confirm
            &&& script_dialogue(Some(Err(e)), selection, entry) == failed
            &&& script_dialogue(Some(Ok(false)), selection, entry) == ScriptStepView::Done(Ok(None))
            &&& script_dialogue(Some(Ok(true)), None, entry) == ScriptStepView::Select
            &&& script_dialogue(Some(Ok(true)), Some(Err(e)), entry) == failed
            &&& script_choice_of(option) matches ScriptChoiceView::Category(name)
                ==> script_dialogue(Some(Ok(true)), Some(Ok(option)), entry)
                == ScriptStepView::Done(Ok(Some(name)))
            &&& script_choice_of(option) == ScriptChoiceView::Entry ==> {
                &&& script_dialogue(Some(Ok(true)), Some(Ok(option)), None) == ScriptStepView::Enter
                &&& script_dialogue(Some(Ok(true)), Some(Ok(option)), Some(Err(e))) == failed
                &&& script_dialogue(Some(Ok(true)), Some(Ok(option)), Some(Ok(filter)))
                    == ScriptStepView::Done(Ok(Some(filter)))
            }
        }),
{
}

} // verus!
