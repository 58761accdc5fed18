//! Promises about the programs that are run, and about what has to be there
//! before.

use crate::constants;
use crate::decimal;
use crate::duration::wrapped_millis;
use crate::error::ErrorView;
use crate::external::nmap::{
    cleaned, detection_args, formatted_ports, kept, nmap_args, port_list, services_in,
    services_in_output, services_in_text, theorem_formatted_ports,
};
use crate::external::nmap_nse::{
    nse_args, script_args, scripts_in, scripts_in_output, scripts_in_text,
};
use crate::external::{located, tool, OutputView};
use crate::rate_limit::RateLimitView;
use crate::text::{self, joined, lines_of, split_on, trimmed, utf8_lossy};
use crate::utils::{
    bar, dependencies, lookup_name, percent_of, progress_line, right_aligned, INSTALL_HELP,
};
use crate::validation::{checked_port_limit, checked_port_list, checked_target};
use crate::xml::{parsed, DocumentView};
use vstd::prelude::*;
use vstd::utf8::encode_utf8;

verus! {

/// A program is where the look-up says, without the whitespace around it; the
/// look-up has to succeed and to say something.
pub proof fn theorem_located(name: Seq<char>, output: OutputView, e: Seq<char>)
    ensures
        located(name, Err(e)) == Err::<Seq<char>, ErrorView>(
            (ErrorView::ExternalTool { tool: "which"@, message: e }),
        ),
        !output.success ==> located(name, Ok(output)) == Err::<Seq<char>, ErrorView>(
            (ErrorView::ExternalTool { tool: name, message: "Tool not found in PATH"@ }),
        ),
        output.success && trimmed(utf8_lossy(output.stdout)).len() == 0 ==> located(
            name,
            Ok(output),
        ) == Err::<Seq<char>, ErrorView>(
            (ErrorView::ExternalTool { tool: name, message: "Tool path is empty"@ }),
        ),
        output.success && trimmed(utf8_lossy(output.stdout)).len() > 0 ==> located(name, Ok(output))
            == Ok::<Seq<char>, ErrorView>(trimmed(utf8_lossy(output.stdout))),
{
}

/// A tool has its name and the place where it was found, and there is none where
/// it was not found.
pub proof fn theorem_tool(
    name: Seq<char>,
    which: core::result::Result<OutputView, Seq<char>>,
)
    ensures
        tool(name, which) is Ok <==> located(name, which) is Ok,
        tool(name, which) matches Ok(t) ==> t.name == name && located(name, which) == Ok::<
            Seq<char>,
            ErrorView,
        >(t.binary_path),
        tool(name, which) is Err ==> tool(name, which)->Err_0 == located(name, which)->Err_0,
{
}

/// The arguments of a detection, each in its place; only the first hangs on the
/// protocol.
pub proof fn theorem_nmap_arguments(target: Seq<char>, ports: Seq<char>, is_udp: bool)
    ensures
        ({
            let args = nmap_args(target, ports, is_udp);
            &&& args.len() == 11
            &&& args[0] == if is_udp {
                "-sUV"@
            } else {
                "-sV"@
            }
            &&& args[1] == "--version-intensity"@
            &&& decimal::unsigned(args[2]) == Some(1nat)
            &&& args[3] == "-p"@
            &&& args[4] == ports
            &&& args[5] == "-oX"@
            &&& args[6] == "-"@
            &&& args[7] == "--open"@
            &&& args[8] == "--disable-arp-ping"@
            &&& args[9] == "-Pn"@
            &&& args[10] == target
        }),
{
    decimal::theorem_digits_read_back(1, 1);
}

/// A port list has the ports in their order, each as a number; without ports
/// there is none.
pub proof fn theorem_port_list(ports: Seq<u16>)
    ensures
        ports.len() == 0 ==> formatted_ports(ports) == Err::<Seq<char>, ErrorView>(
            ErrorView::Validation("Port list cannot be empty"@),
        ),
        ports.len() > 0 ==> {
            let entries = split_on(port_list(ports), ',');
            &&& formatted_ports(ports) == Ok::<Seq<char>, ErrorView>(port_list(ports))
            &&& entries.len() == ports.len()
            &&& forall|i: int|
                0 <= i < ports.len() ==> decimal::unsigned(#[trigger] entries[i]) == Some(
                    ports[i] as nat,
                )
        },
{
    if ports.len() > 0 {
        theorem_formatted_ports(ports);
        let entries = split_on(port_list(ports), ',');
        assert forall|i: int| 0 <= i < ports.len() implies decimal::unsigned(#[trigger] entries[i])
            == Some(ports[i] as nat) by {
            decimal::theorem_digits_read_back(ports[i] as nat, 65535);
        }
    }
}

/// A detection is run on a target that is accepted and on ports from 1 on, as
/// many as there are; else it is refused, and the target is looked at first.
pub proof fn theorem_detection_arguments(target: Seq<char>, ports: Seq<u16>, is_udp: bool)
    ensures
        checked_target(target) is Err ==> detection_args(target, ports, is_udp) == Err::<
            Seq<Seq<char>>,
            ErrorView,
        >(checked_target(target)->Err_0),
        checked_target(target) is Ok && ports.len() == 0 ==> detection_args(target, ports, is_udp)
            == Err::<Seq<Seq<char>>, ErrorView>(ErrorView::Validation("Port list cannot be empty"@)),
        checked_target(target) is Ok && ports.contains(0) ==> detection_args(target, ports, is_udp)
            == Err::<Seq<Seq<char>>, ErrorView>(ErrorView::Validation("Invalid port list"@)),
        checked_target(target) is Ok && ports.len() > 0 && !ports.contains(0) ==> detection_args(
            target,
            ports,
            is_udp,
        ) == Ok::<Seq<Seq<char>>, ErrorView>(nmap_args(target, port_list(ports), is_udp)),
{
    if ports.len() > 0 {
        theorem_formatted_ports(ports);
    }
}

/// Scripts run on a target that is accepted.
pub proof fn theorem_script_run_arguments(
    target: Seq<char>,
    ports: Seq<u16>,
    category: Seq<char>,
)
    ensures
        checked_target(target) is Err ==> script_args(target, ports, category) == Err::<
            Seq<Seq<char>>,
            ErrorView,
        >(checked_target(target)->Err_0),
        checked_target(target) is Ok ==> script_args(target, ports, category) == Ok::<
            Seq<Seq<char>>,
            ErrorView,
        >(nse_args(target, ports, category)),
{
}

/// A line that declares the document type.
pub open spec fn declares(line: Seq<char>) -> bool {
    "<!DOCTYPE"@.is_prefix_of(trimmed(line))
}

/// A report without lines that declare the document type keeps all its lines,
/// in their order.
pub proof fn theorem_nothing_to_clean(report: Seq<char>)
    requires
        forall|i: int| 0 <= i < lines_of(report).len() ==> !declares(#[trigger] lines_of(report)[i]),
    ensures
        cleaned(report) == joined(lines_of(report), seq!['\n']),
{
    reveal_strlit("\n");
    assert("\n"@ =~= seq!['\n']);
    lemma_filter_all(lines_of(report));
}

proof fn lemma_filter_all(lines: Seq<Seq<char>>)
    requires
        forall|i: int| 0 <= i < lines.len() ==> !declares(#[trigger] lines[i]),
    ensures
        lines.filter(kept()) == lines,
    decreases lines.len(),
{
    reveal(Seq::filter);
    if lines.len() > 0 {
        let init = lines.drop_last();
        assert forall|i: int| 0 <= i < init.len() implies !declares(#[trigger] init[i]) by {
            assert(!declares(lines[i]));
        }
        lemma_filter_all(init);
        assert(lines =~= init.push(lines.last()));
        assert(!declares(lines[lines.len() - 1]));
    }
}

/// A line that declares the document type makes no difference, wherever it
/// stands.
pub proof fn theorem_cleaning(
    report: Seq<char>,
    other: Seq<char>,
    before: Seq<Seq<char>>,
    line: Seq<char>,
    behind: Seq<Seq<char>>,
)
    requires
        lines_of(report) == before + seq![line] + behind,
        lines_of(other) == before + behind,
        declares(line),
    ensures
        cleaned(report) == cleaned(other),
{
    let nothing = Seq::<Seq<char>>::empty();
    nothing.lemma_filter_push(line, kept());
    nothing.lemma_filter_len(kept());
    assert(nothing.push(line) =~= seq![line]);
    Seq::filter_distributes_over_add(before + seq![line], behind, kept());
    Seq::filter_distributes_over_add(before, seq![line], kept());
    Seq::filter_distributes_over_add(before, behind, kept());
    assert(seq![line].filter(kept()) =~= nothing);
    assert(before.filter(kept()) + Seq::empty() =~= before.filter(kept()));
}

/// A run of nmap that failed is reported with what it wrote to its error output;
/// of one that went well only the cleaned output counts.
pub proof fn theorem_outputs(output: OutputView, text: Seq<char>, doc: DocumentView, e: Seq<char>)
    ensures
        !output.success ==> services_in_output(output) is Err && services_in_output(output)->Err_0
            == (ErrorView::ExternalTool {
            tool: "nmap"@,
            message: "Command failed: "@ + utf8_lossy(output.stderr),
        }),
        !output.success ==> scripts_in_output(output) is Err && scripts_in_output(output)->Err_0
            == (ErrorView::ExternalTool {
            tool: "nmap_nse"@,
            message: "Command failed: "@ + utf8_lossy(output.stderr),
        }),
        output.success ==> services_in_output(output) == services_in_text(
            cleaned(utf8_lossy(output.stdout)),
        ) && scripts_in_output(output) == scripts_in_text(cleaned(utf8_lossy(output.stdout))),
        parsed(text) == Ok::<DocumentView, Seq<char>>(doc) ==> services_in_text(text)
            == services_in(doc) && scripts_in_text(text) == scripts_in(doc),
        parsed(text) == Err::<DocumentView, Seq<char>>(e) ==> services_in_text(text) is Err
            && services_in_text(text)->Err_0 == ErrorView::Parse("Failed to parse nmap XML: "@ + e)
            && scripts_in_text(text) is Err && scripts_in_text(text)->Err_0 == ErrorView::Parse(
            "Failed to parse NSE XML: "@ + e,
        ),
{
}

/// Both tools have to be there, and the complaint names just those that are not.
pub proof fn theorem_dependencies()
    ensures
        dependencies(true, true) is Ok,
        dependencies(false, true) == Err::<(), ErrorView>(
            complaint("searchsploit (Exploit database search tool)"@),
        ),
        dependencies(true, false) == Err::<(), ErrorView>(
            complaint("nmap (Network scanning and service detection)"@),
        ),
        dependencies(false, false) == Err::<(), ErrorView>(
            complaint(
                "searchsploit (Exploit database search tool)"@ + "\n  "@
                    + "nmap (Network scanning and service detection)"@,
            ),
        ),
{
    reveal_with_fuel(text::joined, 3);
    let a = "searchsploit (Exploit database search tool)"@;
    let b = "nmap (Network scanning and service detection)"@;
    assert(seq![a] + Seq::empty() =~= seq![a]);
    assert(Seq::empty() + seq![b] =~= seq![b]);
    assert(seq![a] + seq![b] =~= seq![a, b]);
    assert(seq![a, b].drop_last() =~= seq![a]);
}

/// The complaint about tools that are missing.
pub open spec fn complaint(missing: Seq<char>) -> ErrorView {
    ErrorView::ExternalTool {
        tool: "dependency_check"@,
        message: "Missing required tools:\n  "@ + missing + INSTALL_HELP@,
    }
}

/// A target is looked up with port 0, and only where it is accepted.
pub proof fn theorem_lookup(target: Seq<char>)
    ensures
        checked_target(target) is Ok ==> lookup_name(target) == Ok::<Seq<char>, ErrorView>(
            target + ":0"@,
        ),
        checked_target(target) is Err ==> lookup_name(target) == Err::<Seq<char>, ErrorView>(
            checked_target(target)->Err_0,
        ),
{
}

/// A target is accepted as it is where it is not empty and takes 253 bytes at
/// most.
pub proof fn theorem_target(target: Seq<char>)
    ensures
        checked_target(target) is Ok <==> target.len() > 0 && encode_utf8(target).len() <= 253,
        checked_target(target) matches Ok(t) ==> t == target,
        target.len() == 0 ==> checked_target(target) == Err::<Seq<char>, ErrorView>(
            ErrorView::Validation("Target cannot be empty"@),
        ),
        target.len() > 0 && encode_utf8(target).len() > 253 ==> checked_target(target) == Err::<
            Seq<char>,
            ErrorView,
        >(ErrorView::Validation("Target is too long"@)),
{
}

/// Every port count but 0 is accepted.
pub proof fn theorem_limit(limit: u16)
    ensures
        limit > 0 ==> checked_port_limit(limit) == Ok::<u16, ErrorView>(limit),
        checked_port_limit(0) == Err::<u16, ErrorView>(
            ErrorView::Validation("Port limit must be at least 1"@),
        ),
{
}

/// A port list is accepted as it is just where every entry is a number from 1 to
/// 65535.
pub proof fn theorem_port_list_accepted(list: Seq<char>)
    ensures
        ({
            let entries = split_on(list, ',');
            checked_port_list(list) is Ok <==> forall|i: int|
                0 <= i < entries.len() ==> (decimal::unsigned(#[trigger] entries[i]) matches Some(n)
                    && 1 <= n <= 65535)
        }),
        checked_port_list(list) matches Ok(l) ==> l == list,
        checked_port_list(list) is Err ==> checked_port_list(list)->Err_0 == ErrorView::Validation(
            "Invalid port list"@,
        ),
{
    let entries = split_on(list, ',');
    assert(forall|i: int|
        0 <= i < entries.len() ==> (crate::validation::is_port(#[trigger] entries[i]) <==> (
        decimal::unsigned(entries[i]) matches Some(n) && 1 <= n <= 65535)));
}

/// A limit needs operations, and a burst of at least one where a burst is given;
/// the burst given goes before the number of operations.
pub proof fn theorem_rate_limit(limit: RateLimitView, b: u32)
    ensures
        limit.max_operations == 0 ==> limit.refusal() == Some(
            ErrorView::Config("Rate limit max_operations must be greater than 0"@),
        ),
        limit.max_operations > 0 && limit.burst_capacity == Some(0u32) ==> limit.refusal() == Some(
            ErrorView::Config("Rate limit burst_capacity must be greater than 0"@),
        ),
        limit.max_operations > 0 && limit.burst_capacity != Some(0u32) ==> limit.refusal() is None,
        limit.burst_capacity == Some(b) ==> limit.burst() == b,
        limit.burst_capacity is None ==> limit.burst() == limit.max_operations,
{
}

/// The percentage is the largest whole one that is not too large.
pub proof fn theorem_percentage(scanned: nat, total: nat)
    ensures
        total == 0 ==> percent_of(scanned, total) == 100,
        total > 0 ==> percent_of(scanned, total) * total <= scanned * 100 < (percent_of(
            scanned,
            total,
        ) + 1) * total,
{
    if total > 0 {
        vstd::arithmetic::div_mod::lemma_fundamental_div_mod((scanned * 100) as int, total as int);
        let q = (scanned * 100) / total;
        let r = (scanned * 100) % total;
        assert(q * total <= scanned * 100 < (q + 1) * total) by (nonlinear_arith)
            requires
                scanned * 100 == total * q + r,
                0 <= r < total,
        ;
    }
}

/// A text is moved to the right by spaces before it, and never cut.
pub proof fn theorem_aligned(s: Seq<char>, width: nat)
    ensures
        s.len() >= width ==> right_aligned(s, width) == s,
        s.len() < width ==> right_aligned(s, width).len() == width && right_aligned(s, width).skip(
            width - s.len(),
        ) == s && forall|i: int|
            0 <= i < width - s.len() ==> #[trigger] right_aligned(s, width)[i] == ' ',
{
    if s.len() < width {
        assert(right_aligned(s, width).skip(width - s.len()) =~= s);
    }
}

/// The progress display has the bar, the percentage and both counts.
pub proof fn theorem_progress_shown(scanned: nat, total: nat)
    ensures
        progress_line(scanned, total) == "\r["@ + bar(percent_of(scanned, total), 40) + "] "@
            + right_aligned(decimal::digits_of(percent_of(scanned, total)), 3) + "% | "@
            + decimal::digits_of(scanned) + "/"@ + decimal::digits_of(total) + " scanned | "@,
{
}

/// A bar has its width, and a place of it is filled just where the percentage
/// reaches its right end.
pub proof fn theorem_bar_places(percent: nat, width: nat, i: int)
    requires
        0 <= i < width,
    ensures
        bar(percent, width).len() == width,
        bar(percent, width)[i] == if (i + 1) * 100 <= percent * width {
            '█'
        } else {
            '░'
        },
{
}

/// The milliseconds of a span are whole ones, and wrap only beyond 64 bits.
pub proof fn theorem_milliseconds(nanos: nat)
    ensures
        nanos / 1_000_000 <= u64::MAX ==> wrapped_millis(nanos) == nanos / 1_000_000,
        wrapped_millis(nanos) as nat % 0x1_0000_0000_0000_0000 == (nanos / 1_000_000)
            % 0x1_0000_0000_0000_0000,
{
}

/// The limits and the defaults, and the help for tools that are not there.
pub proof fn theorem_limits()
    ensures
        constants::DEFAULT_SCAN_TIMEOUT_MS == 1000,
        constants::MAX_CONCURRENT_CONNS == 200,
        constants::DEFAULT_EXPLOIT_TIMEOUT_SECS == 10,
        constants::NMAP_TIMEOUT_SECS == 30,
        constants::NMAP_VERSION_INTENSITY == 1,
        constants::PROGRESS_UPDATE_INTERVAL_MS == 100,
        constants::MAX_DISPLAYED_EXPLOITS == 10,
        constants::ports::MIN == 1,
        constants::ports::MAX == 65535,
        constants::ports::DEFAULT_LIMIT == 1000,
        constants::ports::MAX_K_VALUE == 30,
        constants::progress::DEFAULT_WIDTH == 40,
        constants::validation::MAX_TARGET_LENGTH == 253,
        INSTALL_HELP@ == "\n\nInstall with:\n  sudo apt install nmap  # Debian/Ubuntu\n  sudo pacman -S nmap  # Arch\n  brew install nmap  # macOS\n\n  # Install searchsploit from exploit-db:\n  git clone https://github.com/offensive-security/exploitdb.git\n  sudo cp exploitdb/searchsploit /usr/local/bin/\n  sudo cp -r exploitdb/exploits /opt/"@,
{
}

} // verus!
