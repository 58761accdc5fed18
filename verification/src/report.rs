//! What is shown to the user, as lines of styled text.

use crate::constants;
use crate::decimal;
use crate::detection::{OsResult, OsView};
use crate::external::nmap_nse::{NseResult, NseView};
use crate::scanner::{port_numbers, protocol_name, Port, PortView, ResultsView, ScanResults};
use crate::text::{self, cat};
use vstd::prelude::*;

verus! {

/// How a piece of text is shown.
#[derive(Debug, Clone, Copy, PartialEq, Eq, Structural)]
pub enum Style {
    Plain,
    Dimmed,
    Yellow,
    BoldRed,
    BrightCyan,
    BrightYellow,
    BrightWhite,
    BoldBrightCyan,
    BoldBrightGreen,
    BoldBrightYellow,
    BoldBrightMagenta,
}

/// A piece of text in one style.
#[derive(Debug, Clone)]
pub struct Span {
    pub text: String,
    pub style: Style,
}

/// A piece of text by its characters.
#[verifier::ext_equal]
pub struct SpanView {
    pub text: Seq<char>,
    pub style: Style,
}

impl DeepView for Span {
    type V = SpanView;

    open spec fn deep_view(&self) -> SpanView {
        SpanView { text: self.text@, style: self.style }
    }
}

/// A line: its pieces from left to right.
pub type Line = Vec<Span>;

/// A line by the contents of its pieces.
pub type LineView = Seq<SpanView>;

impl SpanView {
    /// Text without a style.
    pub open spec fn plain(text: Seq<char>) -> SpanView {
        SpanView { text, style: Style::Plain }
    }

    /// Text in a style.
    pub open spec fn styled(text: Seq<char>, style: Style) -> SpanView {
        SpanView { text, style }
    }
}

/// Text without a style.
pub fn plain(text: &str) -> (r: Span)
    ensures
        r.deep_view() == SpanView::plain(text@),
{
    Span { text: text.to_owned(), style: Style::Plain }
}

/// Text in a style.
pub fn styled(text: &str, style: Style) -> (r: Span)
    ensures
        r.deep_view() == SpanView::styled(text@, style),
{
    Span { text: text.to_owned(), style }
}

/// A line with nothing in it.
pub open spec fn blank_line() -> LineView {
    Seq::empty()
}

/// The name of a section.
pub open spec fn heading_line(name: Seq<char>, style: Style) -> LineView {
    seq![SpanView::plain("  "@), SpanView::styled(name, style)]
}

/// A warning.
pub open spec fn warning_line(message: Seq<char>) -> LineView {
    seq![SpanView::styled("WARNING"@, Style::Yellow), SpanView::plain(" "@ + message)]
}

/// A port and its protocol.
pub open spec fn port_line(port: u16, style: Style, protocol: Seq<char>) -> LineView {
    seq![
        SpanView::plain("    "@),
        SpanView::styled(decimal::digits_of(port as nat), style),
        SpanView::plain("/"@ + protocol),
    ]
}

/// The word for so many ports.
pub open spec fn port_word(n: nat) -> Seq<char> {
    if n == 1 {
        "port"@
    } else {
        "ports"@
    }
}

/// The counts of a scan.
pub open spec fn counts_line(results: ResultsView, protocol: Seq<char>) -> LineView {
    seq![
        SpanView::plain("  "@),
        SpanView::styled(decimal::digits_of(results.open.len()), Style::BoldBrightGreen),
        SpanView::plain(" open "@ + protocol + " "@ + port_word(results.open.len()) + "  "@),
        SpanView::styled(decimal::digits_of(results.filtered.len()), Style::BoldBrightYellow),
        SpanView::plain(" filtered "@ + port_word(results.filtered.len()) + "  "@),
        SpanView::styled(decimal::digits_of(results.closed), Style::Dimmed),
        SpanView::plain(" closed"@),
    ]
}

/// So many filtered ports are listed; with more of them only the count is
/// shown.
pub open spec fn max_filtered_listed() -> nat {
    10
}

/// The lines for a section of ports.
pub open spec fn port_section(
    name: Seq<char>,
    heading: Style,
    ports: Seq<u16>,
    style: Style,
    protocol: Seq<char>,
) -> Seq<LineView> {
    seq![blank_line(), heading_line(name, heading)] + ports.map_values(
        |p: u16| port_line(p, style, protocol),
    )
}

/// The lines for the results of a scan.
pub open spec fn summary_lines(results: ResultsView, is_udp: bool) -> Seq<LineView> {
    let protocol = protocol_name(is_udp);
    seq![blank_line(), counts_line(results, protocol)] + (if results.open.len() == 0 {
        Seq::empty()
    } else {
        port_section(
            "open"@,
            Style::BoldBrightGreen,
            results.open.map_values(|p: PortView| p.port),
            Style::BrightCyan,
            protocol,
        )
    }) + (if 0 < results.filtered.len() <= max_filtered_listed() {
        port_section(
            "filtered"@,
            Style::BoldBrightYellow,
            results.filtered,
            Style::BrightYellow,
            protocol,
        )
    } else {
        Seq::empty()
    }) + (if results.open.len() == 0 {
        Seq::empty()
    } else {
        seq![blank_line()]
    })
}

/// The line for a service: product and version only where the product is known.
pub open spec fn service_line(port: PortView) -> LineView {
    seq![
        SpanView::plain("    "@),
        SpanView::styled(decimal::digits_of(port.port as nat), Style::BrightCyan),
        SpanView::plain(
            "/"@ + port.protocol + "  "@ + port.service + (if port.product.len() == 0 {
                Seq::empty()
            } else {
                " "@ + port.product + " "@ + port.version
            }),
        ),
    ]
}

/// The lines for the services of a target.
pub open spec fn service_lines(ports: Seq<PortView>) -> Seq<LineView> {
    if ports.len() == 0 {
        Seq::empty()
    } else {
        seq![heading_line("svc"@, Style::BoldBrightCyan)] + ports.map_values(
            |p: PortView| service_line(p),
        ) + seq![blank_line()]
    }
}

/// The lines for an operating system, with the percentage to show.
pub open spec fn os_lines(os: Option<OsView>, percent: u8) -> Seq<LineView> {
    match os {
        None => Seq::empty(),
        Some(os) => seq![
            heading_line("os"@, Style::BoldBrightMagenta),
            seq![
                SpanView::plain(
                    "    "@ + os.label() + "  ("@ + decimal::digits_of(percent as nat) + "%)"@,
                ),
            ],
            blank_line(),
        ],
    }
}

/// So many lines of what a script reports are shown.
pub open spec fn max_script_lines() -> nat {
    5
}

/// The first lines of a text, as far as they are shown.
pub open spec fn shown_lines(output: Seq<char>) -> Seq<Seq<char>> {
    let lines = text::lines_of(output);
    if lines.len() <= max_script_lines() {
        lines
    } else {
        lines.take(max_script_lines() as int)
    }
}

/// The lines for the result of a script.
pub open spec fn script_lines() -> spec_fn(NseView) -> Seq<LineView> {
    |result: NseView|
        seq![
            seq![
                SpanView::plain("    "@),
                SpanView::styled(decimal::digits_of(result.port as nat), Style::BrightCyan),
                SpanView::plain("/tcp  "@),
                SpanView::styled(result.script_id, Style::BrightWhite),
            ],
        ] + shown_lines(result.output).map_values(
            |line: Seq<char>|
                seq![SpanView::plain("      "@), SpanView::styled(line, Style::Dimmed)],
        )
}

/// The lines for the results of the scripts.
pub open spec fn nse_lines(results: Seq<NseView>) -> Seq<LineView> {
    if results.len() == 0 {
        Seq::empty()
    } else {
        seq![heading_line("nse"@, Style::BoldBrightYellow)] + results.flat_map(script_lines())
            + seq![blank_line()]
    }
}

/// How many ports are scanned, in words.
pub open spec fn limit_text(limit: u16) -> Seq<char> {
    if limit == constants::ports::MAX {
        "all"@
    } else {
        decimal::digits_of(limit as nat)
    }
}

/// The announcement of a scan; `kind` says what ports they are.
pub open spec fn scan_line(target: Seq<char>, limit: u16, kind: Seq<char>) -> LineView {
    seq![
        SpanView::plain("  "@),
        SpanView::styled(target, Style::BoldBrightCyan),
        SpanView::plain("  scanning top "@ + limit_text(limit) + kind + " ports"@),
    ]
}

/// A line with nothing in it.
fn blank() -> (r: Line)
    ensures
        r.deep_view() == blank_line(),
{
    Vec::new()
}

/// The name of a section.
fn heading(name: &str, style: Style) -> (r: Line)
    ensures
        r.deep_view() == heading_line(name@, style),
{
    vec![plain("  "), styled(name, style)]
}

/// A warning.
pub fn warning(message: &str) -> (r: Line)
    ensures
        r.deep_view() == warning_line(message@),
{
    vec![styled("WARNING", Style::Yellow), plain(cat(" ", message).as_str())]
}

/// A port and its protocol.
fn port_entry(port: u16, style: Style, protocol: &str) -> (r: Line)
    ensures
        r.deep_view() == port_line(port, style, protocol@),
{
    let number = decimal::write(port as u64);
    vec![
        plain("    "),
        styled(number.as_str(), style),
        plain(cat("/", protocol).as_str()),
    ]
}

/// The word for so many ports.
fn word_for(n: usize) -> (r: &'static str)
    ensures
        r@ == port_word(n as nat),
{
    if n == 1 {
        "port"
    } else {
        "ports"
    }
}

/// The counts of a scan.
fn counts(results: &ScanResults, protocol: &str) -> (r: Line)
    ensures
        r.deep_view() == counts_line(results.deep_view(), protocol@),
{
    let open = decimal::write(results.open.len() as u64);
    let filtered = decimal::write(results.filtered.len() as u64);
    let closed = decimal::write(results.closed as u64);
    let mut open_text = cat(" open ", protocol);
    open_text.append(" ");
    open_text.append(word_for(results.open.len()));
    open_text.append("  ");
    let mut filtered_text = cat(" filtered ", word_for(results.filtered.len()));
    filtered_text.append("  ");
    vec![
        plain("  "),
        styled(open.as_str(), Style::BoldBrightGreen),
        plain(open_text.as_str()),
        styled(filtered.as_str(), Style::BoldBrightYellow),
        plain(filtered_text.as_str()),
        styled(closed.as_str(), Style::Dimmed),
        plain(" closed"),
    ]
}

/// Adds a section of ports.
fn push_section(
    lines: &mut Vec<Line>,
    name: &str,
    heading_style: Style,
    ports: &[u16],
    style: Style,
    protocol: &str,
)
    ensures
        final(lines).deep_view() == old(lines).deep_view() + port_section(
            name@,
            heading_style,
            ports@,
            style,
            protocol@,
        ),
{
    let ghost before = lines.deep_view();
    let ghost section = port_section(name@, heading_style, ports@, style, protocol@);
    lines.push(blank());
    lines.push(heading(name, heading_style));
    let mut i: usize = 0;
    while i < ports.len()
        invariant
            i <= ports@.len(),
            section == port_section(name@, heading_style, ports@, style, protocol@),
            lines.deep_view() == before + section.take(i + 2),
        decreases ports@.len() - i,
    {
        let ghost so_far = lines.deep_view();
        lines.push(port_entry(ports[i], style, protocol));
        assert(lines.deep_view() =~= so_far.push(section[i + 2]));
        i += 1;
    }
}

/// The lines for the results of a scan.
pub fn scan_summary(results: &ScanResults, is_udp: bool) -> (r: Vec<Line>)
    ensures
        r.deep_view() == summary_lines(results.deep_view(), is_udp),
{
    let protocol = if is_udp {
        "udp"
    } else {
        "tcp"
    };
    let mut lines: Vec<Line> = Vec::new();
    lines.push(blank());
    lines.push(counts(results, protocol));
    let ghost head = seq![blank_line(), counts_line(results.deep_view(), protocol@)];
    assert(lines.deep_view() =~= head);
    if !results.open.is_empty() {
        let numbers = port_numbers(results.open.as_slice());
        push_section(
            &mut lines,
            "open",
            Style::BoldBrightGreen,
            numbers.as_slice(),
            Style::BrightCyan,
            protocol,
        );
    }
    if results.filtered.len() <= 10 && !results.filtered.is_empty() {
        push_section(
            &mut lines,
            "filtered",
            Style::BoldBrightYellow,
            results.filtered.as_slice(),
            Style::BrightYellow,
            protocol,
        );
    }
    if !results.open.is_empty() {
        lines.push(blank());
    }
    lines
}

/// The line for a service.
fn service_entry(port: &Port) -> (r: Line)
    ensures
        r.deep_view() == service_line(port.deep_view()),
{
    let number = decimal::write(port.port as u64);
    let mut s = cat("/", port.protocol.as_str());
    s.append("  ");
    s.append(port.service.as_str());
    let ghost start = s@;
    if !port.product.as_str().is_empty() {
        s.append(" ");
        s.append(port.product.as_str());
        s.append(" ");
        s.append(port.version.as_str());
        assert(s@ =~= start + (" "@ + port.product@ + " "@ + port.version@));
    }
    vec![
        plain("    "),
        styled(number.as_str(), Style::BrightCyan),
        plain(s.as_str()),
    ]
}

/// The lines for the services of a target.
pub fn service_report(ports: &[Port]) -> (r: Vec<Line>)
    ensures
        r.deep_view() == service_lines(ports.deep_view()),
{
    let mut lines: Vec<Line> = Vec::new();
    if ports.len() == 0 {
        return lines;
    }
    lines.push(heading("svc", Style::BoldBrightCyan));
    let ghost all = service_lines(ports.deep_view());
    let mut i: usize = 0;
    while i < ports.len()
        invariant
            i <= ports@.len(),
            ports@.len() > 0,
            all == service_lines(ports.deep_view()),
            lines.deep_view() == all.take(i + 1),
        decreases ports@.len() - i,
    {
        let ghost so_far = lines.deep_view();
        lines.push(service_entry(&ports[i]));
        assert(lines.deep_view() =~= so_far.push(all[i + 1]));
        i += 1;
    }
    lines.push(blank());
    assert(all.take(i + 1).push(blank_line()) =~= all);
    lines
}

/// The lines for an operating system. `percent` is how sure the detection is,
/// as it is to be shown.
pub fn os_report(os: &Option<OsResult>, percent: u8) -> (r: Vec<Line>)
    ensures
        r.deep_view() == os_lines(os.deep_view(), percent),
{
    let mut lines: Vec<Line> = Vec::new();
    match os {
        Some(os) => {
            let label = os.distro_label();
            let number = decimal::write(percent as u64);
            let mut s = cat("    ", label.as_str());
            s.append("  (");
            s.append(number.as_str());
            s.append("%)");
            lines.push(heading("os", Style::BoldBrightMagenta));
            let entry = vec![plain(s.as_str())];
            assert(entry.deep_view() =~= os_lines(Some(os.deep_view()), percent)[1]);
            lines.push(entry);
            lines.push(blank());
        },
        None => {},
    }
    lines
}

/// The lines for the result of a script.
fn script_report(result: &NseResult) -> (r: Vec<Line>)
    ensures
        r.deep_view() == script_lines()(result.deep_view()),
{
    let ghost all = script_lines()(result.deep_view());
    let ghost shown = shown_lines(result.output@);
    let number = decimal::write(result.port as u64);
    let head = vec![
        plain("    "),
        styled(number.as_str(), Style::BrightCyan),
        plain("/tcp  "),
        styled(result.script_id.as_str(), Style::BrightWhite),
    ];
    assert(head.deep_view() =~= all[0]);
    let mut lines: Vec<Line> = Vec::new();
    lines.push(head);
    let output = text::lines(result.output.as_str());
    let mut i: usize = 0;
    while i < output.len() && i < 5
        invariant
            i <= shown.len(),
            all == script_lines()(result.deep_view()),
            shown == shown_lines(result.output@),
            output.deep_view() == text::lines_of(result.output@),
            lines.deep_view() == all.take(i + 1),
        decreases output@.len() - i,
    {
        let ghost so_far = lines.deep_view();
        let line = vec![plain("      "), styled(output[i].as_str(), Style::Dimmed)];
        assert(line.deep_view() =~= all[i + 1]);
        lines.push(line);
        assert(lines.deep_view() =~= so_far.push(all[i + 1]));
        i += 1;
    }
    lines
}

/// The lines for the results of the scripts.
pub fn nse_report(results: &[NseResult]) -> (r: Vec<Line>)
    ensures
        r.deep_view() == nse_lines(results.deep_view()),
{
    let mut lines: Vec<Line> = Vec::new();
    if results.len() == 0 {
        return lines;
    }
    lines.push(heading("nse", Style::BoldBrightYellow));
    let ghost all = results.deep_view();
    let ghost head = seq![heading_line("nse"@, Style::BoldBrightYellow)];
    let mut i: usize = 0;
    while i < results.len()
        invariant
            i <= results@.len(),
            all == results.deep_view(),
            lines.deep_view() == head + all.take(i as int).flat_map(script_lines()),
        decreases results@.len() - i,
    {
        let ghost so_far = lines.deep_view();
        let mut entry = script_report(&results[i]);
        let ghost added = entry.deep_view();
        lines.append(&mut entry);
        proof {
            assert(lines.deep_view() =~= so_far + added);
            all.lemma_flat_map_take_append(script_lines(), i as int);
        }
        i += 1;
    }
    assert(all.take(i as int) =~= all);
    lines.push(blank());
    lines
}

/// The announcement of a scan; `kind` says what ports they are.
pub fn scan_announcement(target: &str, limit: u16, kind: &str) -> (r: Line)
    ensures
        r.deep_view() == scan_line(target@, limit, kind@),
{
    let count = if limit == constants::ports::MAX {
        "all".to_owned()
    } else {
        decimal::write(limit as u64)
    };
    let mut s = cat("  scanning top ", count.as_str());
    s.append(kind);
    s.append(" ports");
    vec![plain("  "), styled(target, Style::BoldBrightCyan), plain(s.as_str())]
}

} // verus!
