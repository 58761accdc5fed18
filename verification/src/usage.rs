//! The help text, and when it is shown.

use crate::error::{ErrorView, OxideScannerError};
use crate::report::{plain, styled, Line, LineView, SpanView, Style};
use crate::text::{self, cat};
use vstd::prelude::*;

verus! {

/// The first line of the help text.
pub const SYNOPSIS: &'static str = "usage: oxscan <target> [port-options] [--json] [--scan-timeout MS] [--exploit-timeout MS] [--threads N]";

/// The lines of the help text behind the first.
pub open spec fn usage_details() -> Seq<Seq<char>> {
    seq![
        "Port Options:"@,
        "  -Nk                 Scan N*1000 ports (e.g., -1k=1000, -5k=5000, -30k=30000)"@,
        "  -N                  Scan N ports directly (e.g., -1000, -5000)"@,
        "  --ports N           Scan N ports (e.g., --ports 1000)"@,
        "  (no flag)           Scan top 1000 ports (most common)"@,
        "Scan Mode:"@,
        "  (none)              TCP scan (default)"@,
        "  --udp               UDP scan"@,
        "  --both              TCP + UDP scan"@,
        "Other Options:"@,
        "  --json              Output in JSON format"@,
        "  --scan-timeout MS   Connection timeout in milliseconds (default: 1000)"@,
        "  --exploit-timeout MS Exploit search timeout in milliseconds (default: 10000)"@,
        "  --threads N         Max concurrent connections (default: 200)"@,
        "  --script CATEGORY   Run nmap NSE scripts (e.g., --script vuln)"@,
        "Examples:"@,
        "  oxscan 127.0.0.1                    # TCP scan top 1000 ports"@,
        "  oxscan example.com -1k              # TCP scan top 1000 ports"@,
        "  oxscan example.com -5k              # TCP scan top 5000 ports"@,
        "  oxscan example.com -500             # Scan first 500 ports"@,
        "  oxscan example.com --ports 1000     # Scan 1000 ports"@,
        "  oxscan example.com -65535           # Scan all ports"@,
        "  oxscan 192.168.1.1 --json          # Output in JSON format"@,
        "  oxscan scanme.nmap.org --udp       # UDP scan"@,
        "  oxscan scanme.nmap.org --both      # TCP + UDP scan"@,
        "  oxscan scanme.nmap.org --script vuln  # Run NSE vulnerability scripts"@,
    ]
}

/// The help text.
pub open spec fn usage_lines() -> Seq<LineView> {
    seq![seq![SpanView::styled(SYNOPSIS@, Style::BoldRed)]] + usage_details().map_values(
        |line: Seq<char>| seq![SpanView::plain(line)],
    )
}

/// The lines of the help text behind the first.
fn details() -> (r: Vec<&'static str>)
    ensures
        r.deep_view() == usage_details(),
{
    vec![
        "Port Options:",
        "  -Nk                 Scan N*1000 ports (e.g., -1k=1000, -5k=5000, -30k=30000)",
        "  -N                  Scan N ports directly (e.g., -1000, -5000)",
        "  --ports N           Scan N ports (e.g., --ports 1000)",
        "  (no flag)           Scan top 1000 ports (most common)",
        "Scan Mode:",
        "  (none)              TCP scan (default)",
        "  --udp               UDP scan",
        "  --both              TCP + UDP scan",
        "Other Options:",
        "  --json              Output in JSON format",
        "  --scan-timeout MS   Connection timeout in milliseconds (default: 1000)",
        "  --exploit-timeout MS Exploit search timeout in milliseconds (default: 10000)",
        "  --threads N         Max concurrent connections (default: 200)",
        "  --script CATEGORY   Run nmap NSE scripts (e.g., --script vuln)",
        "Examples:",
        "  oxscan 127.0.0.1                    # TCP scan top 1000 ports",
        "  oxscan example.com -1k              # TCP scan top 1000 ports",
        "  oxscan example.com -5k              # TCP scan top 5000 ports",
        "  oxscan example.com -500             # Scan first 500 ports",
        "  oxscan example.com --ports 1000     # Scan 1000 ports",
        "  oxscan example.com -65535           # Scan all ports",
        "  oxscan 192.168.1.1 --json          # Output in JSON format",
        "  oxscan scanme.nmap.org --udp       # UDP scan",
        "  oxscan scanme.nmap.org --both      # TCP + UDP scan",
        "  oxscan scanme.nmap.org --script vuln  # Run NSE vulnerability scripts",
    ]
}

/// The help text.
pub fn usage() -> (r: Vec<Line>)
    ensures
        r.deep_view() == usage_lines(),
{
    let texts = details();
    let first = vec![styled(SYNOPSIS, Style::BoldRed)];
    assert(first.deep_view() =~= usage_lines()[0]);
    let mut lines: Vec<Line> = Vec::new();
    lines.push(first);
    let mut i: usize = 0;
    while i < texts.len()
        invariant
            i <= texts@.len(),
            texts.deep_view() == usage_details(),
            lines.deep_view() == usage_lines().take(i + 1),
        decreases texts@.len() - i,
    {
        let ghost before = lines.deep_view();
        let line = vec![plain(texts[i])];
        assert(line.deep_view() =~= usage_lines()[i + 1]);
        lines.push(line);
        assert(lines.deep_view() =~= before.push(usage_lines()[i + 1]));
        i += 1;
    }
    lines
}

/// The help text is shown where there is no target, or help is asked for in its
/// place.
pub open spec fn asks_for_usage(args: Seq<Seq<char>>) -> bool {
    args.len() < 2 || args[1] == "--help"@ || args[1] == "-h"@
}

/// Whether the help text is shown.
pub fn wants_usage(args: &[String]) -> (r: bool)
    ensures
        r == asks_for_usage(args.deep_view()),
{
    args.len() < 2 || text::same(args[1].as_str(), "--help") || text::same(args[1].as_str(), "-h")
}

/// The line about an error, behind a mark.
pub open spec fn error_line(mark: Seq<char>, e: ErrorView) -> LineView {
    seq![SpanView::styled(mark, Style::BoldRed), SpanView::plain(" "@ + e.described())]
}

/// The line about an error, behind a mark.
fn marked_error(mark: &str, e: &OxideScannerError) -> (r: Line)
    ensures
        r.deep_view() == error_line(mark@, e.deep_view()),
{
    let reason = e.describe();
    vec![styled(mark, Style::BoldRed), plain(cat(" ", reason.as_str()).as_str())]
}

/// The line about arguments or an environment that make no configuration.
pub fn config_error(e: &OxideScannerError) -> (r: Line)
    ensures
        r.deep_view() == error_line("ERROR"@, e.deep_view()),
{
    marked_error("ERROR", e)
}

/// The line about a run that failed.
pub fn run_error(e: &OxideScannerError) -> (r: Line)
    ensures
        r.deep_view() == error_line("\u{2717}"@, e.deep_view()),
{
    marked_error("\u{2717}", e)
}

} // verus!
