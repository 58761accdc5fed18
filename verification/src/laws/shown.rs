//! Promises about what is shown.

use crate::decimal;
use crate::detection::OsView;
use crate::error::ErrorView;
use crate::external::nmap_nse::NseView;
use crate::laws::documents::{lemma_flat_map_at, lemma_flat_map_len, size_of, total};
use crate::report::{
    nse_lines, os_lines, scan_line, script_lines, service_lines, shown_lines, summary_lines,
    LineView, SpanView, Style,
};
use crate::scanner::{PortView, ResultsView};
use crate::text;
use crate::usage::{asks_for_usage, error_line, usage_lines};
use vstd::prelude::*;

verus! {

/// A piece of text in a style.
pub open spec fn piece(text: Seq<char>, style: Style) -> SpanView {
    SpanView { text, style }
}

/// The name of a section.
pub open spec fn section(name: Seq<char>, style: Style) -> LineView {
    seq![piece("  "@, Style::Plain), piece(name, style)]
}

/// A port with its protocol.
pub open spec fn port_shown(port: u16, style: Style, is_udp: bool) -> LineView {
    seq![
        piece("    "@, Style::Plain),
        piece(decimal::digits_of(port as nat), style),
        piece(
            if is_udp {
                "/"@ + "udp"@
            } else {
                "/"@ + "tcp"@
            },
            Style::Plain,
        ),
    ]
}

/// One port, or several.
pub open spec fn ports_word(n: nat) -> Seq<char> {
    if n == 1 {
        "port"@
    } else {
        "ports"@
    }
}

/// The summary of a scan has the counts, then every open port, then every
/// filtered port where there are ten at most, and an empty line at the end where
/// there are open ports.
pub proof fn theorem_summary(r: ResultsView, is_udp: bool)
    ensures
        ({
            let lines = summary_lines(r, is_udp);
            let n = r.open.len();
            let m = r.filtered.len();
            let protocol = if is_udp {
                "udp"@
            } else {
                "tcp"@
            };
            let behind: int = if n > 0 {
                n as int + 4
            } else {
                2
            };
            let listed: int = if 0 < m <= 10 {
                m as int + 2
            } else {
                0
            };
            &&& lines.len() == behind + listed + if n > 0 {
                1int
            } else {
                0int
            }
            &&& lines[0].len() == 0
            &&& lines[1] == seq![
                piece("  "@, Style::Plain),
                piece(decimal::digits_of(n), Style::BoldBrightGreen),
                piece(" open "@ + protocol + " "@ + ports_word(n) + "  "@, Style::Plain),
                piece(decimal::digits_of(m), Style::BoldBrightYellow),
                piece(" filtered "@ + ports_word(m) + "  "@, Style::Plain),
                piece(decimal::digits_of(r.closed), Style::Dimmed),
                piece(" closed"@, Style::Plain),
            ]
            &&& n > 0 ==> {
                &&& lines[2].len() == 0
                &&& lines[3] == section("open"@, Style::BoldBrightGreen)
                &&& forall|i: int|
                    0 <= i < n ==> #[trigger] lines[4 + i] == port_shown(
                        r.open[i].port,
                        Style::BrightCyan,
                        is_udp,
                    )
                &&& lines.last().len() == 0
            }
            &&& 0 < m <= 10 ==> {
                &&& lines[behind].len() == 0
                &&& lines[behind + 1] == section("filtered"@, Style::BoldBrightYellow)
                &&& forall|i: int|
                    0 <= i < m ==> #[trigger] lines[behind + 2 + i] == port_shown(
                        r.filtered[i],
                        Style::BrightYellow,
                        is_udp,
                    )
            }
        }),
{
}

/// Every service has its line, in order, with product and version where the
/// product is known.
pub proof fn theorem_services_shown(ports: Seq<PortView>)
    ensures
        ports.len() == 0 ==> service_lines(ports).len() == 0,
        ports.len() > 0 ==> {
            let lines = service_lines(ports);
            &&& lines.len() == ports.len() + 2
            &&& lines[0] == section("svc"@, Style::BoldBrightCyan)
            &&& lines.last().len() == 0
            &&& forall|i: int|
                0 <= i < ports.len() ==> {
                    let line = #[trigger] lines[1 + i];
                    let p = ports[i];
                    &&& line.len() == 3
                    &&& line[0] == piece("    "@, Style::Plain)
                    &&& line[1] == piece(decimal::digits_of(p.port as nat), Style::BrightCyan)
                    &&& line[2].style == Style::Plain
                    &&& p.product.len() == 0 ==> line[2].text == "/"@ + p.protocol + "  "@
                        + p.service
                    &&& p.product.len() > 0 ==> line[2].text == "/"@ + p.protocol + "  "@
                        + p.service + " "@ + p.product + " "@ + p.version
                }
        },
{
    if ports.len() > 0 {
        let lines = service_lines(ports);
        assert forall|i: int| 0 <= i < ports.len() implies {
            let line = #[trigger] lines[1 + i];
            let p = ports[i];
            &&& p.product.len() == 0 ==> line[2].text == "/"@ + p.protocol + "  "@ + p.service
            &&& p.product.len() > 0 ==> line[2].text == "/"@ + p.protocol + "  "@ + p.service + " "@
                + p.product + " "@ + p.version
        } by {
            let p = ports[i];
            let start = "/"@ + p.protocol + "  "@ + p.service;
            assert(start + Seq::<char>::empty() =~= start);
            assert(start + (" "@ + p.product + " "@ + p.version) =~= start + " "@ + p.product + " "@
                + p.version);
        }
    }
}

/// An operating system is shown with its label and the percentage.
pub proof fn theorem_os_shown(os: OsView, percent: u8)
    ensures
        os_lines(None, percent).len() == 0,
        os_lines(Some(os), percent).len() == 3,
        os_lines(Some(os), percent)[0] == section("os"@, Style::BoldBrightMagenta),
        os_lines(Some(os), percent)[2].len() == 0,
        os.distro.len() == 0 ==> os_lines(Some(os), percent)[1] == seq![
            piece(
                "    "@ + os.name + "  ("@ + decimal::digits_of(percent as nat) + "%)"@,
                Style::Plain,
            ),
        ],
        os.distro.len() > 0 ==> os_lines(Some(os), percent)[1] == seq![
            piece(
                "    "@ + (os.name + ", "@ + os.distro) + "  ("@ + decimal::digits_of(
                    percent as nat,
                ) + "%)"@,
                Style::Plain,
            ),
        ],
{
}

/// How many lines a script result takes: one, and five at most for what the
/// script says.
pub open spec fn script_size() -> spec_fn(NseView) -> nat {
    |r: NseView|
        1 + if text::lines_of(r.output).len() > 5 {
            5
        } else {
            text::lines_of(r.output).len()
        }
}

proof fn lemma_script_size(results: Seq<NseView>)
    ensures
        total(results, size_of(script_lines())) == total(results, script_size()),
    decreases results.len(),
{
    if results.len() > 0 {
        lemma_script_size(results.drop_last());
    }
}

/// Every script result is shown, in order: the port, the script, and the first
/// five lines of what it says.
pub proof fn theorem_scripts_shown(results: Seq<NseView>, j: int)
    requires
        0 <= j < results.len(),
    ensures
        nse_lines(Seq::empty()).len() == 0,
        ({
            let lines = nse_lines(results);
            let at = 1 + total(results.take(j), script_size());
            let r = results[j];
            &&& lines.len() == 2 + total(results, script_size())
            &&& lines[0] == section("nse"@, Style::BoldBrightYellow)
            &&& lines.last().len() == 0
            &&& lines[at as int] == seq![
                piece("    "@, Style::Plain),
                piece(decimal::digits_of(r.port as nat), Style::BrightCyan),
                piece("/tcp  "@, Style::Plain),
                piece(r.script_id, Style::BrightWhite),
            ]
            &&& forall|k: int|
                0 <= k < 5 && k < text::lines_of(r.output).len() ==> #[trigger] lines[at + 1 + k]
                    == seq![
                    piece("      "@, Style::Plain),
                    piece(text::lines_of(r.output)[k], Style::Dimmed),
                ]
        }),
{
    let f = script_lines();
    let lines = nse_lines(results);
    let at = 1 + total(results.take(j), script_size());
    let r = results[j];
    lemma_flat_map_len(results, f);
    lemma_script_size(results);
    lemma_script_size(results.take(j));
    lemma_flat_map_at(results, f, j, 0);
    assert forall|k: int| 0 <= k < 5 && k < text::lines_of(r.output).len() implies
        #[trigger] lines[at + 1 + k] == seq![
        piece("      "@, Style::Plain),
        piece(text::lines_of(r.output)[k], Style::Dimmed),
    ] by {
        assert(shown_lines(r.output)[k] == text::lines_of(r.output)[k]);
        lemma_flat_map_at(results, f, j, k + 1);
        assert(f(r)[k + 1] == seq![
            piece("      "@, Style::Plain),
            piece(text::lines_of(r.output)[k], Style::Dimmed),
        ]);
    }
}

/// A scan is announced with the target and how many ports are scanned.
pub proof fn theorem_announcement(target: Seq<char>, limit: u16, kind: Seq<char>)
    ensures
        scan_line(target, limit, kind) == seq![
            piece("  "@, Style::Plain),
            piece(target, Style::BoldBrightCyan),
            piece(
                "  scanning top "@ + (if limit == 65535 {
                    "all"@
                } else {
                    decimal::digits_of(limit as nat)
                }) + kind + " ports"@,
                Style::Plain,
            ),
        ],
{
}

/// The help text is shown without a target or in its place, and nowhere else.
pub proof fn theorem_usage(args: Seq<Seq<char>>)
    ensures
        args.len() < 2 ==> asks_for_usage(args),
        args.len() >= 2 ==> (asks_for_usage(args) <==> args[1] == "--help"@ || args[1] == "-h"@),
        usage_lines().len() == 27,
        usage_lines()[0].len() == 1 && usage_lines()[0][0].style == Style::BoldRed,
        forall|i: int|
            1 <= i < 27 ==> (#[trigger] usage_lines()[i]).len() == 1 && usage_lines()[i][0].style
                == Style::Plain,
{
}

/// What the help text says: the options with their defaults, and examples.
pub proof fn theorem_usage_text(i: int)
    requires
        0 <= i < 26,
    ensures
        usage_lines()[0] == seq![
            piece(
                "usage: oxscan <target> [port-options] [--json] [--scan-timeout MS] [--exploit-timeout MS] [--threads N]"@,
                Style::BoldRed,
            ),
        ],
        usage_lines()[i + 1] == seq![
            piece(
                seq![
                    "Port Options:"@,
                    "  -Nk                 Scan N*1000 ports (e.g., -1k=1000, -5k=5000, -30k=30000)"@,
                    "  -N                  Scan N ports directly (e.g., -1000, -5000)"@,
                    "  --ports N           Scan N ports (e.g., --ports 1000)"@,
                    "  (no flag)           Scan top 1000 ports (most common)"@,
                    "Scan Mode:"@,
                    "  (none)              TCP scan (default)"@,
                    "  --udp               UDP scan"@,
                    "  --both              TCP + UDP scan"@,
                    "Other Options:"@,
                    "  --json              Output in JSON format"@,
                    "  --scan-timeout MS   Connection timeout in milliseconds (default: 1000)"@,
                    "  --exploit-timeout MS Exploit search timeout in milliseconds (default: 10000)"@,
                    "  --threads N         Max concurrent connections (default: 200)"@,
                    "  --script CATEGORY   Run nmap NSE scripts (e.g., --script vuln)"@,
                    "Examples:"@,
                    "  oxscan 127.0.0.1                    # TCP scan top 1000 ports"@,
                    "  oxscan example.com -1k              # TCP scan top 1000 ports"@,
                    "  oxscan example.com -5k              # TCP scan top 5000 ports"@,
                    "  oxscan example.com -500             # Scan first 500 ports"@,
                    "  oxscan example.com --ports 1000     # Scan 1000 ports"@,
                    "  oxscan example.com -65535           # Scan all ports"@,
                    "  oxscan 192.168.1.1 --json          # Output in JSON format"@,
                    "  oxscan scanme.nmap.org --udp       # UDP scan"@,
                    "  oxscan scanme.nmap.org --both      # TCP + UDP scan"@,
                    "  oxscan scanme.nmap.org --script vuln  # Run NSE vulnerability scripts"@,
                ][i],
                Style::Plain,
            ),
        ],
{
}

/// An error is shown behind its mark, with its whole description.
pub proof fn theorem_error_shown(mark: Seq<char>, e: ErrorView)
    ensures
        error_line(mark, e) == seq![
            piece(mark, Style::BoldRed),
            piece(" "@ + e.described(), Style::Plain),
        ],
{
}

/// Every error is described by what it is about and the reason.
pub proof fn theorem_descriptions(m: Seq<char>, tool: Seq<char>, ms: u64)
    ensures
        ErrorView::Config(m).described() == "Configuration error: "@ + m,
        (ErrorView::ExternalTool { tool, message: m }).described() == "External tool error: "@ + tool
            + " failed with "@ + m,
        ErrorView::Validation(m).described() == "Validation error: "@ + m,
        ErrorView::Parse(m).described() == "Parsing error: "@ + m,
        ErrorView::Io(m).described() == "IO error: "@ + m,
        (ErrorView::Timeout { duration_ms: ms }).described()
            == "Timeout error: operation timed out after "@ + decimal::digits_of(ms as nat) + "ms"@,
        ErrorView::ServiceDetection(m).described() == "Service detection failed: "@ + m,
        ErrorView::TargetResolution(m).described() == "Target resolution failed: "@ + m,
{
}

} // verus!
