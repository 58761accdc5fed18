//! Port lists, the progress display, and what has to be there before a scan.

use crate::constants;
use crate::decimal;
use crate::error::{outcome, ErrorView, Outcome, OxideScannerError};
use crate::external::CommandOutput;
use crate::text::{self, cat};
use crate::validation::{checked_target, validate_port_limit, validate_target};
use vstd::prelude::*;

verus! {

/// The entries for the tools that are not there.
pub open spec fn missing_tools(searchsploit: bool, nmap: bool) -> Seq<Seq<char>> {
    (if searchsploit {
        Seq::empty()
    } else {
        seq!["searchsploit (Exploit database search tool)"@]
    }) + (if nmap {
        Seq::empty()
    } else {
        seq!["nmap (Network scanning and service detection)"@]
    })
}

/// How to get the tools.
pub const INSTALL_HELP: &'static str = "\n\nInstall with:\n  sudo apt install nmap  # Debian/Ubuntu\n  sudo pacman -S nmap  # Arch\n  brew install nmap  # macOS\n\n  # Install searchsploit from exploit-db:\n  git clone https://github.com/offensive-security/exploitdb.git\n  sudo cp exploitdb/searchsploit /usr/local/bin/\n  sudo cp -r exploitdb/exploits /opt/";

/// Every tool has to be there; the error names those that are not.
pub open spec fn dependencies(searchsploit: bool, nmap: bool) -> core::result::Result<
    (),
    ErrorView,
> {
    if searchsploit && nmap {
        Ok(())
    } else {
        Err(
            ErrorView::ExternalTool {
                tool: "dependency_check"@,
                message: "Missing required tools:\n  "@ + text::joined(
                    missing_tools(searchsploit, nmap),
                    "\n  "@,
                ) + INSTALL_HELP@,
            },
        )
    }
}

/// Whether the scan can begin, by which of the tools were found.
pub fn check_dependencies(searchsploit: bool, nmap: bool) -> (r: Outcome<()>)
    ensures
        outcome(r) == dependencies(searchsploit, nmap),
{
    let mut missing: Vec<String> = Vec::new();
    if !searchsploit {
        missing.push("searchsploit (Exploit database search tool)".to_owned());
    }
    if !nmap {
        missing.push("nmap (Network scanning and service detection)".to_owned());
    }
    assert(missing.deep_view() =~= missing_tools(searchsploit, nmap));
    if missing.len() > 0 {
        let list = text::join(&missing, "\n  ");
        let mut message = cat("Missing required tools:\n  ", list.as_str());
        message.append(INSTALL_HELP);
        return Err(OxideScannerError::external_tool("dependency_check", message.as_str()));
    }
    Ok(())
}

/// Whether a program is there, by the outcome of `which`.
pub fn check_binary_in_path(which: &core::result::Result<CommandOutput, String>) -> (r: bool)
    ensures
        r == (which matches Ok(output) && output.success),
{
    match which {
        Ok(output) => output.success,
        Err(_) => false,
    }
}

/// The name to look up for a target, with a port that stands for none.
pub open spec fn lookup_name(target: Seq<char>) -> core::result::Result<Seq<char>, ErrorView> {
    match checked_target(target) {
        Ok(target) => Ok(target + ":0"@),
        Err(e) => Err(e),
    }
}

/// The name to look up for a target.
pub fn target_lookup_name(target: &str) -> (r: Outcome<String>)
    ensures
        outcome(r) == lookup_name(target@),
{
    match validate_target(target) {
        Ok(target) => Ok(cat(target.as_str(), ":0")),
        Err(e) => Err(e),
    }
}

/// The addresses of a target, by the outcome of the look-up: there has to be
/// one at least.
pub fn resolve_target<T>(target: &str, found: core::result::Result<Vec<T>, String>) -> (r: Outcome<
    Vec<T>,
>)
    ensures
        match (checked_target(target@), found) {
            (Err(e), _) => r is Err && r->Err_0.deep_view() == e,
            (Ok(_), Err(e)) => r is Err && r->Err_0.deep_view() == ErrorView::TargetResolution(
                "resolve error: "@ + e@,
            ),
            (Ok(_), Ok(addrs)) => if addrs@.len() == 0 {
                r is Err && r->Err_0.deep_view() == ErrorView::TargetResolution(
                    "could not resolve target: "@ + target@,
                )
            } else {
                r == Ok::<Vec<T>, OxideScannerError>(addrs)
            },
        },
{
    match validate_target(target) {
        Ok(_) => {},
        Err(e) => {
            return Err(e);
        },
    }
    match found {
        Ok(addrs) => {
            if addrs.is_empty() {
                Err(
                    OxideScannerError::target_resolution(
                        cat("could not resolve target: ", target).as_str(),
                    ),
                )
            } else {
                Ok(addrs)
            }
        },
        Err(e) => Err(
            OxideScannerError::target_resolution(cat("resolve error: ", e.as_str()).as_str()),
        ),
    }
}

/// The ports from 1 up to the limit.
pub open spec fn ports_up_to(limit: u16) -> Seq<u16> {
    Seq::new(limit as nat, |i: int| (i + 1) as u16)
}

/// The ports to scan.
pub fn get_port_list(limit: u16) -> (r: Vec<u16>)
    ensures
        r@ == ports_up_to(limit),
{
    let last: u16 = match validate_port_limit(limit) {
        Ok(limit) => limit,
        Err(_) => limit,
    };
    let mut ports: Vec<u16> = Vec::new();
    let mut port: u16 = 0;
    while port < last
        invariant
            port <= last,
            ports@ == ports_up_to(port),
        decreases last - port,
    {
        port += 1;
        ports.push(port);
    }
    ports
}

/// A port list holds every port up to its limit once, in order, and no other.
pub proof fn theorem_port_list(limit: u16, port: u16)
    ensures
        ports_up_to(limit).contains(port) <==> constants::ports::MIN <= port <= limit,
        ports_up_to(limit).no_duplicates(),
        forall|i: int, j: int|
            0 <= i < j < limit ==> ports_up_to(limit)[i] < ports_up_to(limit)[j],
{
    if constants::ports::MIN <= port <= limit {
        assert(ports_up_to(limit)[port - 1] == port);
    }
}

/// A bar of `width` characters, filled to so many percent.
pub open spec fn bar(percent: nat, width: nat) -> Seq<char> {
    Seq::new(
        width,
        |i: int|
            if i < (percent * width) / 100 {
                '█'
            } else {
                '░'
            },
    )
}

/// A bar of `width` characters, filled to so many percent.
pub fn progress_bar(percent: usize, width: usize) -> (r: String)
    requires
        percent * width <= usize::MAX,
    ensures
        r@ == bar(percent as nat, width as nat),
{
    let filled: usize = (percent * width) / 100;
    let mut s = String::new();
    let mut i: usize = 0;
    while i < width
        invariant
            i <= width,
            filled == (percent * width) / 100,
            s@ == bar(percent as nat, width as nat).take(i as int),
        decreases width - i,
    {
        if i < filled {
            s.push('█');
        } else {
            s.push('░');
        }
        i += 1;
    }
    s
}

/// A bar that is filled to at most a hundred percent has its filled part first,
/// then its empty part, and no more than its width.
pub proof fn theorem_bar(percent: nat, width: nat)
    requires
        percent <= 100,
    ensures
        (percent * width) / 100 <= width,
        bar(percent, width) == Seq::new((percent * width) / 100, |i: int| '█') + Seq::new(
            (width - (percent * width) / 100) as nat,
            |i: int| '░',
        ),
{
    assert(percent * width <= 100 * width) by (nonlinear_arith)
        requires
            percent <= 100,
    ;
}

/// A full bar stands for all ports, an empty one for none.
pub proof fn theorem_bar_ends(width: nat, i: int)
    requires
        0 <= i < width,
    ensures
        bar(100, width)[i] == '█',
        bar(0, width)[i] == '░',
{
}

/// How many percent of the ports are done; nothing to do counts as done.
pub open spec fn percent_of(scanned: nat, total: nat) -> nat {
    if total > 0 {
        (scanned * 100) / total
    } else {
        100
    }
}

/// How many percent of the ports are done.
pub fn progress_percent(scanned: usize, total: usize) -> (r: usize)
    requires
        scanned * 100 <= usize::MAX,
    ensures
        r == percent_of(scanned as nat, total as nat),
{
    if total > 0 {
        (scanned * 100) / total
    } else {
        100
    }
}

/// While ports are left, less than a hundred percent are done.
pub proof fn theorem_percent(scanned: nat, total: nat)
    requires
        scanned <= total,
    ensures
        percent_of(scanned, total) <= 100,
        percent_of(scanned, total) == 100 <==> scanned == total,
{
    if total > 0 {
        vstd::arithmetic::div_mod::lemma_fundamental_div_mod((scanned * 100) as int, total as int);
        let q = (scanned * 100) / total;
        let r = (scanned * 100) % total;
        assert(q <= 100 && (q == 100 <==> scanned == total)) by (nonlinear_arith)
            requires
                scanned * 100 == total * q + r,
                0 <= r < total,
                0 <= scanned <= total,
                q >= 0,
        ;
    }
}

/// A text moved to the right end of so many columns; a longer one is left as it
/// is.
pub open spec fn right_aligned(s: Seq<char>, width: nat) -> Seq<char> {
    if s.len() >= width {
        s
    } else {
        Seq::new((width - s.len()) as nat, |i: int| ' ') + s
    }
}

/// The progress display, up to the time that has passed.
pub open spec fn progress_line(scanned: nat, total: nat) -> Seq<char> {
    let percent = percent_of(scanned, total);
    "\r["@ + bar(percent, constants::progress::DEFAULT_WIDTH as nat) + "] "@ + right_aligned(
        decimal::digits_of(percent),
        3,
    ) + "% | "@ + decimal::digits_of(scanned) + "/"@ + decimal::digits_of(total) + " scanned | "@
}

/// The progress display, up to the time that has passed, and whether it is the
/// last one.
pub fn progress_tick(scanned: usize, total: usize) -> (r: (String, bool))
    requires
        scanned * 100 <= usize::MAX,
        percent_of(scanned as nat, total as nat) * constants::progress::DEFAULT_WIDTH <= usize::MAX,
    ensures
        r.0@ == progress_line(scanned as nat, total as nat),
        r.1 == (scanned >= total),
{
    let percent: usize = progress_percent(scanned, total);
    let bar_text = progress_bar(percent, constants::progress::DEFAULT_WIDTH);
    let number = decimal::write(percent as u64);
    let number = align_right(number.as_str(), 3);
    let done = decimal::write(scanned as u64);
    let all = decimal::write(total as u64);
    let mut s = cat("\r[", bar_text.as_str());
    s.append("] ");
    s.append(number.as_str());
    s.append("% | ");
    s.append(done.as_str());
    s.append("/");
    s.append(all.as_str());
    s.append(" scanned | ");
    (s, scanned >= total)
}

/// A text moved to the right end of so many columns.
fn align_right(s: &str, width: usize) -> (r: String)
    ensures
        r@ == right_aligned(s@, width as nat),
    decreases width,
{
    let chars = text::to_chars(s);
    if chars.len() >= width {
        s.to_owned()
    } else {
        let shorter = align_right(s, width - 1);
        let aligned = cat(" ", shorter.as_str());
        proof {
            reveal_strlit(" ");
        }
        aligned
    }
}

/// Whether the progress is shown: at a terminal, unless the output is JSON.
pub fn shows_progress(json_mode: bool, terminal: bool) -> (r: bool)
    ensures
        r == (terminal && !json_mode),
{
    !(json_mode || !terminal)
}

} // verus!
