//! What the answers to the interactive questions mean.

use crate::config::ScanMode;
use crate::constants;
use crate::decimal;
use crate::error::{outcome, ErrorView, Outcome, OxideScannerError};
use crate::text::{self, cat};
use crate::validation::{checked_port_limit, validate_port_limit};
use vstd::prelude::*;

verus! {

/// What a question to the user brings: the answer, or why there is none.
pub type Reply<T> = core::result::Result<T, String>;

/// What follows from the choice of a port count.
#[derive(Debug, Clone, Copy, PartialEq, Eq, Structural)]
pub enum PortLimitChoice {
    /// The count is known.
    Limit(u16),
    /// The user wants to enter a count.
    Entry,
}

impl DeepView for PortLimitChoice {
    type V = PortLimitChoice;

    open spec fn deep_view(&self) -> PortLimitChoice {
        *self
    }
}

/// What follows from the choice of a script category.
#[derive(Debug, Clone)]
pub enum ScriptChoice {
    /// The category is known.
    Category(String),
    /// The user wants to enter a filter.
    Entry,
}

/// A script choice by the characters of its category.
#[verifier::ext_equal]
pub enum ScriptChoiceView {
    Category(Seq<char>),
    Entry,
}

impl DeepView for ScriptChoice {
    type V = ScriptChoiceView;

    open spec fn deep_view(&self) -> ScriptChoiceView {
        match *self {
            ScriptChoice::Category(c) => ScriptChoiceView::Category(c@),
            ScriptChoice::Entry => ScriptChoiceView::Entry,
        }
    }
}

/// The modes that the user can choose from.
pub fn scan_mode_options() -> (r: Vec<&'static str>)
    ensures
        r.deep_view() == seq!["TCP"@, "UDP"@, "TCP + UDP"@],
{
    vec!["TCP", "UDP", "TCP + UDP"]
}

/// The mode behind an option.
pub open spec fn scan_mode_of(selection: Seq<char>) -> ScanMode {
    if selection == "UDP"@ {
        ScanMode::Udp
    } else if selection == "TCP + UDP"@ {
        ScanMode::Both
    } else {
        ScanMode::Tcp
    }
}

/// The name of a mode, when it is chosen, gives the mode.
pub proof fn theorem_scan_mode_options(mode: ScanMode)
    ensures
        scan_mode_of(mode.name()) == mode,
{
    reveal_strlit("TCP");
    reveal_strlit("UDP");
    reveal_strlit("TCP + UDP");
    assert("TCP"@[0] != "UDP"@[0]);
    assert("TCP + UDP"@.len() != "TCP"@.len());
}

/// The scan mode that the user chose.
pub fn scan_mode_answer(reply: Reply<String>) -> (r: Outcome<ScanMode>)
    ensures
        outcome(r) == (match reply {
            Ok(selection) => Ok(scan_mode_of(selection@)),
            Err(e) => Err(ErrorView::Config("Scan mode prompt failed: "@ + e@)),
        }),
{
    match reply {
        Ok(selection) => {
            if text::same(selection.as_str(), "UDP") {
                Ok(ScanMode::Udp)
            } else if text::same(selection.as_str(), "TCP + UDP") {
                Ok(ScanMode::Both)
            } else {
                Ok(ScanMode::Tcp)
            }
        },
        Err(e) => Err(
            OxideScannerError::config(cat("Scan mode prompt failed: ", e.as_str()).as_str()),
        ),
    }
}

/// The port counts that the user can choose from, and behind them the option to
/// enter one.
pub open spec fn offered_port_limits() -> Seq<Seq<char>> {
    seq!["1000 (top ports)"@, "5000"@, "10000"@, "65535 (all)"@, "Custom"@]
}

/// The port counts that the user can choose from, and behind them the option to
/// enter one.
pub fn port_limit_options() -> (r: Vec<&'static str>)
    ensures
        r.deep_view() == offered_port_limits(),
{
    vec!["1000 (top ports)", "5000", "10000", "65535 (all)", "Custom"]
}

/// What follows from an option.
pub open spec fn port_limit_of(selection: Seq<char>) -> PortLimitChoice {
    if selection == "1000 (top ports)"@ {
        PortLimitChoice::Limit(1000)
    } else if selection == "5000"@ {
        PortLimitChoice::Limit(5000)
    } else if selection == "10000"@ {
        PortLimitChoice::Limit(10000)
    } else if selection == "65535 (all)"@ {
        PortLimitChoice::Limit(constants::ports::MAX)
    } else {
        PortLimitChoice::Entry
    }
}

/// What follows from the port count that the user chose.
pub fn port_limit_answer(reply: Reply<String>) -> (r: Outcome<PortLimitChoice>)
    ensures
        outcome(r) == (match reply {
            Ok(selection) => Ok(port_limit_of(selection@)),
            Err(e) => Err(ErrorView::Config("Port prompt failed: "@ + e@)),
        }),
{
    match reply {
        Ok(selection) => {
            let s = selection.as_str();
            if text::same(s, "1000 (top ports)") {
                Ok(PortLimitChoice::Limit(1000))
            } else if text::same(s, "5000") {
                Ok(PortLimitChoice::Limit(5000))
            } else if text::same(s, "10000") {
                Ok(PortLimitChoice::Limit(10000))
            } else if text::same(s, "65535 (all)") {
                Ok(PortLimitChoice::Limit(constants::ports::MAX))
            } else {
                Ok(PortLimitChoice::Entry)
            }
        },
        Err(e) => Err(OxideScannerError::config(cat("Port prompt failed: ", e.as_str()).as_str())),
    }
}

/// The upper end of a range that begins with port 0 or 1.
pub open spec fn range_end(input: Seq<char>) -> Option<Seq<char>> {
    if "1-"@.is_prefix_of(input) || "0-"@.is_prefix_of(input) {
        Some(input.skip(2))
    } else {
        None
    }
}

/// The port count that a text stands for: `all`, a number, or a range that
/// begins with port 0 or 1.
pub open spec fn port_count(input: Seq<char>) -> core::result::Result<u16, ErrorView> {
    let max = u16::MAX as nat;
    if input == "all"@ {
        Ok(constants::ports::MAX)
    } else {
        match (decimal::unsigned_up_to(input, max), range_end(input)) {
            (Some(n), _) => checked_port_limit(n as u16),
            (None, Some(end)) => match decimal::unsigned_up_to(end, max) {
                Some(n) => checked_port_limit(n as u16),
                None => Err(
                    ErrorView::Config(
                        "Invalid port range: "@ + input + ". Use a number like 2300"@,
                    ),
                ),
            },
            (None, None) => Err(
                ErrorView::Config(
                    "Invalid port number: "@ + input + ". Use e.g. 2300 or 1-2300"@,
                ),
            ),
        }
    }
}

/// The port count that a trimmed text in lower case stands for.
pub fn read_port_count(input: &str) -> (r: Outcome<u16>)
    ensures
        outcome(r) == port_count(input@),
{
    if text::same(input, "all") {
        return Ok(constants::ports::MAX);
    }
    match decimal::read(input, u16::MAX as u64) {
        Some(n) => {
            return validate_port_limit(n as u16);
        },
        None => {},
    }
    if text::starts_with(input, "1-") || text::starts_with(input, "0-") {
        proof {
            reveal_strlit("1-");
            reveal_strlit("0-");
        }
        let cs = text::to_chars(input);
        let end = text::from_chars(&cs, 2, cs.len());
        match decimal::read(end.as_str(), u16::MAX as u64) {
            Some(n) => validate_port_limit(n as u16),
            None => {
                let mut message = cat("Invalid port range: ", input);
                message.append(". Use a number like 2300");
                Err(OxideScannerError::config(message.as_str()))
            },
        }
    } else {
        let mut message = cat("Invalid port number: ", input);
        message.append(". Use e.g. 2300 or 1-2300");
        Err(OxideScannerError::config(message.as_str()))
    }
}

/// The port count that the user entered, whatever the case of its letters.
pub fn port_count_answer(reply: Reply<String>) -> (r: Outcome<u16>)
    ensures
        reply is Ok && text::is_ascii_text(reply->Ok_0@) ==> outcome(r) == port_count(
            text::ascii_lowercase(text::trimmed(reply->Ok_0@)),
        ),
        outcome(r) == (match reply {
            Ok(entry) => port_count(text::lowercase(text::trimmed(entry@))),
            Err(e) => Err(ErrorView::Config("Port input failed: "@ + e@)),
        }),
{
    match reply {
        Ok(entry) => {
            let input = text::trim(entry.as_str()).as_str().to_lowercase();
            proof {
                if text::is_ascii_text(entry@) {
                    text::theorem_trimmed_ascii(entry@);
                }
            }
            read_port_count(input.as_str())
        },
        Err(e) => Err(OxideScannerError::config(cat("Port input failed: ", e.as_str()).as_str())),
    }
}

/// Whether the user wants to run scripts.
pub fn script_confirmation(reply: Reply<bool>) -> (r: Outcome<bool>)
    ensures
        outcome(r) == (match reply {
            Ok(yes) => Ok(yes),
            Err(e) => Err(ErrorView::Config("NSE prompt failed: "@ + e@)),
        }),
{
    match reply {
        Ok(yes) => Ok(yes),
        Err(e) => Err(OxideScannerError::config(cat("NSE prompt failed: ", e.as_str()).as_str())),
    }
}

/// The script categories that the user can choose from, and behind them the
/// option to enter something else.
pub open spec fn offered_scripts() -> Seq<Seq<char>> {
    seq![
        "vuln        Check for specific known vulnerabilities"@,
        "safe        Not designed to crash services or exploit holes"@,
        "default     Default set (-sC) — speed, usefulness, reliability"@,
        "discovery   Query registries, SNMP, directory services, etc."@,
        "exploit     Actively exploit a vulnerability"@,
        "auth        Authentication credentials (or bypassing them)"@,
        "brute       Brute-force to guess authentication credentials"@,
        "intrusive   May crash target, use significant resources"@,
        "dos         May cause a denial of service"@,
        "broadcast   Discover hosts by broadcasting on local network"@,
        "external    May send data to third-party services"@,
        "fuzzer      Send unexpected/randomized fields in packets"@,
        "malware     Test if target is infected by malware/backdoors"@,
        "info        General information gathering"@,
        "version     Version detection extension (auto, not selectable)"@,
        "Custom      Type your own"@,
    ]
}

/// The names of the categories.
pub open spec fn category_names() -> Seq<Seq<char>> {
    seq![
        "vuln"@,
        "safe"@,
        "default"@,
        "discovery"@,
        "exploit"@,
        "auth"@,
        "brute"@,
        "intrusive"@,
        "dos"@,
        "broadcast"@,
        "external"@,
        "fuzzer"@,
        "malware"@,
        "info"@,
        "version"@,
    ]
}

/// The script categories that the user can choose from, and behind them the
/// option to enter something else.
pub fn script_options() -> (r: Vec<&'static str>)
    ensures
        r.deep_view() == offered_scripts(),
{
    vec![
        "vuln        Check for specific known vulnerabilities",
        "safe        Not designed to crash services or exploit holes",
        "default     Default set (-sC) — speed, usefulness, reliability",
        "discovery   Query registries, SNMP, directory services, etc.",
        "exploit     Actively exploit a vulnerability",
        "auth        Authentication credentials (or bypassing them)",
        "brute       Brute-force to guess authentication credentials",
        "intrusive   May crash target, use significant resources",
        "dos         May cause a denial of service",
        "broadcast   Discover hosts by broadcasting on local network",
        "external    May send data to third-party services",
        "fuzzer      Send unexpected/randomized fields in packets",
        "malware     Test if target is infected by malware/backdoors",
        "info        General information gathering",
        "version     Version detection extension (auto, not selectable)",
        "Custom      Type your own",
    ]
}

/// What follows from an option: the last one asks for an entry, and the name of
/// a category is the first word.
pub open spec fn script_choice_of(selection: Seq<char>) -> ScriptChoiceView {
    if selection == "Custom      Type your own"@ {
        ScriptChoiceView::Entry
    } else if text::first_word_of(selection).len() == 0 {
        ScriptChoiceView::Category("vuln"@)
    } else {
        ScriptChoiceView::Category(text::first_word_of(selection))
    }
}

/// The letters at position `k` are the same and no whitespace, as far as the
/// name goes.
spec fn letters_agree(name: Seq<char>, option: Seq<char>, k: int) -> bool {
    k < name.len() ==> name[k] == option[k] && !text::is_whitespace(name[k])
}

/// An option whose first word is a short name, other than that of the last
/// option, stands for the category of that name.
proof fn lemma_category(name: Seq<char>, option: Seq<char>)
    requires
        0 < name.len() <= 9,
        name.len() < option.len(),
        letters_agree(name, option, 0),
        letters_agree(name, option, 1),
        letters_agree(name, option, 2),
        letters_agree(name, option, 3),
        letters_agree(name, option, 4),
        letters_agree(name, option, 5),
        letters_agree(name, option, 6),
        letters_agree(name, option, 7),
        letters_agree(name, option, 8),
        text::is_whitespace(option[name.len() as int]),
        name[0] != 'C',
    ensures
        script_choice_of(option) == ScriptChoiceView::Category(name),
{
    reveal_strlit("Custom      Type your own");
    assert(forall|i: int| 0 <= i < name.len() ==> letters_agree(name, option, i));
    assert(option.take(name.len() as int) =~= name);
    text::theorem_first_word(name, option);
}

/// The last of the offered options lets the user enter a filter, and each of the
/// others stands for its category.
pub proof fn theorem_script_options(i: int)
    requires
        0 <= i < offered_scripts().len(),
    ensures
        offered_scripts().len() == category_names().len() + 1,
        script_choice_of(offered_scripts()[i]) == if i < category_names().len() {
            ScriptChoiceView::Category(category_names()[i])
        } else {
            ScriptChoiceView::Entry
        },
{
    if i == 0 {
        reveal_strlit("vuln");
        reveal_strlit("vuln        Check for specific known vulnerabilities");
        lemma_category("vuln"@, "vuln        Check for specific known vulnerabilities"@);
    } else if i == 1 {
        reveal_strlit("safe");
        reveal_strlit("safe        Not designed to crash services or exploit holes");
        lemma_category("safe"@, "safe        Not designed to crash services or exploit holes"@);
    } else if i == 2 {
        reveal_strlit("default");
        reveal_strlit("default     Default set (-sC) — speed, usefulness, reliability");
        lemma_category("default"@, "default     Default set (-sC) — speed, usefulness, reliability"@);
    } else if i == 3 {
        reveal_strlit("discovery");
        reveal_strlit("discovery   Query registries, SNMP, directory services, etc.");
        lemma_category("discovery"@, "discovery   Query registries, SNMP, directory services, etc."@);
    } else if i == 4 {
        reveal_strlit("exploit");
        reveal_strlit("exploit     Actively exploit a vulnerability");
        lemma_category("exploit"@, "exploit     Actively exploit a vulnerability"@);
    } else if i == 5 {
        reveal_strlit("auth");
        reveal_strlit("auth        Authentication credentials (or bypassing them)");
        lemma_category("auth"@, "auth        Authentication credentials (or bypassing them)"@);
    } else if i == 6 {
        reveal_strlit("brute");
        reveal_strlit("brute       Brute-force to guess authentication credentials");
        lemma_category("brute"@, "brute       Brute-force to guess authentication credentials"@);
    } else if i == 7 {
        reveal_strlit("intrusive");
        reveal_strlit("intrusive   May crash target, use significant resources");
        lemma_category("intrusive"@, "intrusive   May crash target, use significant resources"@);
    } else if i == 8 {
        reveal_strlit("dos");
        reveal_strlit("dos         May cause a denial of service");
        lemma_category("dos"@, "dos         May cause a denial of service"@);
    } else if i == 9 {
        reveal_strlit("broadcast");
        reveal_strlit("broadcast   Discover hosts by broadcasting on local network");
        lemma_category("broadcast"@, "broadcast   Discover hosts by broadcasting on local network"@);
    } else if i == 10 {
        reveal_strlit("external");
        reveal_strlit("external    May send data to third-party services");
        lemma_category("external"@, "external    May send data to third-party services"@);
    } else if i == 11 {
        reveal_strlit("fuzzer");
        reveal_strlit("fuzzer      Send unexpected/randomized fields in packets");
        lemma_category("fuzzer"@, "fuzzer      Send unexpected/randomized fields in packets"@);
    } else if i == 12 {
        reveal_strlit("malware");
        reveal_strlit("malware     Test if target is infected by malware/backdoors");
        lemma_category("malware"@, "malware     Test if target is infected by malware/backdoors"@);
    } else if i == 13 {
        reveal_strlit("info");
        reveal_strlit("info        General information gathering");
        lemma_category("info"@, "info        General information gathering"@);
    } else if i == 14 {
        reveal_strlit("version");
        reveal_strlit("version     Version detection extension (auto, not selectable)");
        lemma_category("version"@, "version     Version detection extension (auto, not selectable)"@);
    }
}

/// What follows from the script category that the user chose.
pub fn script_answer(reply: Reply<String>) -> (r: Outcome<ScriptChoice>)
    ensures
        outcome(r) == (match reply {
            Ok(selection) => Ok(script_choice_of(selection@)),
            Err(e) => Err(ErrorView::Config("NSE prompt failed: "@ + e@)),
        }),
{
    match reply {
        Ok(selection) => {
            if text::same(selection.as_str(), "Custom      Type your own") {
                return Ok(ScriptChoice::Entry);
            }
            let word = text::first_word(selection.as_str());
            if word.as_str().is_empty() {
                Ok(ScriptChoice::Category("vuln".to_owned()))
            } else {
                Ok(ScriptChoice::Category(word))
            }
        },
        Err(e) => Err(OxideScannerError::config(cat("NSE prompt failed: ", e.as_str()).as_str())),
    }
}

/// The script filter that the user entered.
pub fn script_entry_answer(reply: Reply<String>) -> (r: Outcome<String>)
    ensures
        outcome(r) == (match reply {
            Ok(filter) => Ok(filter@),
            Err(e) => Err(ErrorView::Config("NSE prompt failed: "@ + e@)),
        }),
{
    match reply {
        Ok(filter) => Ok(filter),
        Err(e) => Err(OxideScannerError::config(cat("NSE prompt failed: ", e.as_str()).as_str())),
    }
}

/// A reply, where there is one, by its contents.
pub open spec fn replied<T: DeepView>(reply: Option<Reply<T>>) -> Option<
    core::result::Result<T::V, Seq<char>>,
> {
    match reply {
        Some(Ok(v)) => Some(Ok(v.deep_view())),
        Some(Err(e)) => Some(Err(e@)),
        None => None,
    }
}

/// What happens next when the user is asked for a port count.
#[derive(Debug)]
pub enum PortLimitStep {
    /// Let the user choose from the options.
    Select,
    /// Let the user enter a count.
    Enter,
    Done(Outcome<u16>),
}

/// A step to a port count by its contents.
#[verifier::ext_equal]
pub enum PortLimitStepView {
    Select,
    Enter,
    Done(core::result::Result<u16, ErrorView>),
}

impl DeepView for PortLimitStep {
    type V = PortLimitStepView;

    open spec fn deep_view(&self) -> PortLimitStepView {
        match *self {
            PortLimitStep::Select => PortLimitStepView::Select,
            PortLimitStep::Enter => PortLimitStepView::Enter,
            PortLimitStep::Done(r) => PortLimitStepView::Done(outcome(r)),
        }
    }
}

/// What happens next, given the replies so far: a count is entered only where
/// none of the options names one.
pub open spec fn port_limit_dialogue(
    selection: Option<core::result::Result<Seq<char>, Seq<char>>>,
    entry: Option<core::result::Result<Seq<char>, Seq<char>>>,
) -> PortLimitStepView {
    match selection {
        None => PortLimitStepView::Select,
        Some(Err(e)) => PortLimitStepView::Done(
            Err(ErrorView::Config("Port prompt failed: "@ + e)),
        ),
        Some(Ok(option)) => match (port_limit_of(option), entry) {
            (PortLimitChoice::Limit(n), _) => PortLimitStepView::Done(Ok(n)),
            (PortLimitChoice::Entry, None) => PortLimitStepView::Enter,
            (PortLimitChoice::Entry, Some(Err(e))) => PortLimitStepView::Done(
                Err(ErrorView::Config("Port input failed: "@ + e)),
            ),
            (PortLimitChoice::Entry, Some(Ok(input))) => PortLimitStepView::Done(
                port_count(text::lowercase(text::trimmed(input))),
            ),
        },
    }
}

/// What happens next when the user is asked for a port count, given the replies
/// so far.
pub fn prompt_port_limit(selection: Option<Reply<String>>, entry: Option<Reply<String>>) -> (r:
    PortLimitStep)
    ensures
        r.deep_view() == port_limit_dialogue(replied(selection), replied(entry)),
        match (selection, entry) {
            (Some(Ok(option)), Some(Ok(input))) => {
                port_limit_of(option@) == PortLimitChoice::Entry && text::is_ascii_text(input@)
                    ==> r.deep_view() == PortLimitStepView::Done(
                    port_count(text::ascii_lowercase(text::trimmed(input@))),
                )
            },
            _ => true,
        },
{
    let choice = match selection {
        None => {
            return PortLimitStep::Select;
        },
        Some(reply) => port_limit_answer(reply),
    };
    match choice {
        Err(e) => PortLimitStep::Done(Err(e)),
        Ok(PortLimitChoice::Limit(n)) => PortLimitStep::Done(Ok(n)),
        Ok(PortLimitChoice::Entry) => match entry {
            None => PortLimitStep::Enter,
            Some(reply) => PortLimitStep::Done(port_count_answer(reply)),
        },
    }
}

/// Each of the offered options stands for the port count that it names, and the
/// last one asks for an entry.
pub proof fn theorem_port_limit_options(i: int)
    requires
        0 <= i < offered_port_limits().len(),
    ensures
        port_limit_of(offered_port_limits()[i]) == seq![
            PortLimitChoice::Limit(1000),
            PortLimitChoice::Limit(5000),
            PortLimitChoice::Limit(10000),
            PortLimitChoice::Limit(constants::ports::MAX),
            PortLimitChoice::Entry,
        ][i],
{
    reveal_strlit("1000 (top ports)");
    reveal_strlit("5000");
    reveal_strlit("10000");
    reveal_strlit("65535 (all)");
    reveal_strlit("Custom");
    assert("5000"@.len() == 4);
    assert("10000"@.len() == 5);
    assert("65535 (all)"@.len() == 11);
    assert("Custom"@.len() == 6);
}

/// Every port count that the user can settle on can be scanned: there is at
/// least one port.
pub proof fn theorem_port_limit_is_usable(
    selection: Option<core::result::Result<Seq<char>, Seq<char>>>,
    entry: Option<core::result::Result<Seq<char>, Seq<char>>>,
)
    ensures
        port_limit_dialogue(selection, entry) matches PortLimitStepView::Done(Ok(n))
            ==> n >= constants::ports::MIN,
{
}

/// What happens next when the user is asked for scripts.
#[derive(Debug)]
pub enum ScriptStep {
    /// Ask whether scripts are to be run at all.
    Confirm,
    /// Let the user choose a category.
    Select,
    /// Let the user enter a filter.
    Enter,
    Done(Outcome<Option<String>>),
}

/// A step to the scripts by its contents.
#[verifier::ext_equal]
pub enum ScriptStepView {
    Confirm,
    Select,
    Enter,
    Done(core::result::Result<Option<Seq<char>>, ErrorView>),
}

impl DeepView for ScriptStep {
    type V = ScriptStepView;

    open spec fn deep_view(&self) -> ScriptStepView {
        match *self {
            ScriptStep::Confirm => ScriptStepView::Confirm,
            ScriptStep::Select => ScriptStepView::Select,
            ScriptStep::Enter => ScriptStepView::Enter,
            ScriptStep::Done(r) => ScriptStepView::Done(outcome(r)),
        }
    }
}

/// A dialogue about scripts that broke off.
pub open spec fn script_prompt_failed(e: Seq<char>) -> ScriptStepView {
    ScriptStepView::Done(Err(ErrorView::Config("NSE prompt failed: "@ + e)))
}

/// What happens next, given the replies so far.
pub open spec fn script_dialogue(
    confirmation: Option<core::result::Result<bool, Seq<char>>>,
    selection: Option<core::result::Result<Seq<char>, Seq<char>>>,
    entry: Option<core::result::Result<Seq<char>, Seq<char>>>,
) -> ScriptStepView {
    match (confirmation, selection) {
        (None, _) => ScriptStepView::Confirm,
        (Some(Err(e)), _) => script_prompt_failed(e),
        (Some(Ok(false)), _) => ScriptStepView::Done(Ok(None)),
        (Some(Ok(true)), None) => ScriptStepView::Select,
        (Some(Ok(true)), Some(Err(e))) => script_prompt_failed(e),
        (Some(Ok(true)), Some(Ok(option))) => match (script_choice_of(option), entry) {
            (ScriptChoiceView::Category(name), _) => ScriptStepView::Done(Ok(Some(name))),
            (ScriptChoiceView::Entry, None) => ScriptStepView::Enter,
            (ScriptChoiceView::Entry, Some(Err(e))) => script_prompt_failed(e),
            (ScriptChoiceView::Entry, Some(Ok(filter))) => ScriptStepView::Done(Ok(Some(filter))),
        },
    }
}

/// What happens next when the user is asked for scripts, given the replies so
/// far.
pub fn prompt_nse_script(
    confirmation: Option<Reply<bool>>,
    selection: Option<Reply<String>>,
    entry: Option<Reply<String>>,
) -> (r: ScriptStep)
    ensures
        r.deep_view() == script_dialogue(replied(confirmation), replied(selection), replied(entry)),
{
    let yes = match confirmation {
        None => {
            return ScriptStep::Confirm;
        },
        Some(reply) => match script_confirmation(reply) {
            Ok(yes) => yes,
            Err(e) => {
                return ScriptStep::Done(Err(e));
            },
        },
    };
    if !yes {
        return ScriptStep::Done(Ok(None));
    }
    let choice = match selection {
        None => {
            return ScriptStep::Select;
        },
        Some(reply) => script_answer(reply),
    };
    match choice {
        Err(e) => ScriptStep::Done(Err(e)),
        Ok(ScriptChoice::Category(name)) => ScriptStep::Done(Ok(Some(name))),
        Ok(ScriptChoice::Entry) => match entry {
            None => ScriptStep::Enter,
            Some(reply) => match script_entry_answer(reply) {
                Ok(filter) => ScriptStep::Done(Ok(Some(filter))),
                Err(e) => ScriptStep::Done(Err(e)),
            },
        },
    }
}

/// Who confirms and chooses the last option is asked for a filter, and what is
/// entered is what runs.
pub proof fn theorem_own_filter(filter: Seq<char>)
    ensures
        script_dialogue(Some(Ok(true)), Some(Ok(offered_scripts().last())), None)
            == ScriptStepView::Enter,
        script_dialogue(Some(Ok(true)), Some(Ok(offered_scripts().last())), Some(Ok(filter)))
            == ScriptStepView::Done(Ok(Some(filter))),
{
    theorem_script_options(offered_scripts().len() - 1);
}

} // verus!
