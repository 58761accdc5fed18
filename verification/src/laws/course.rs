//! Promises about the course of a run: what is done and shown at each stage.

use crate::config::{ConfigView, ScanMode};
use crate::decimal;
use crate::detection::{detected, detection_warnings, DetectionView};
use crate::error::ErrorView;
use crate::report::{nse_lines, os_lines, service_lines, summary_lines, LineView, SpanView, Style};
use crate::run::{run_step, ActionView, FindingsView, RunStepView};
use crate::scanner::{
    numbers_of, probe_results, scan_results, theorem_reports_are_true, PortStatus, PortView,
    ResultsView,
};
use crate::sorting;
use crate::utils::dependencies;
use crate::validation::checked_target;
use vstd::prelude::*;

verus! {

/// TCP ports are scanned: with TCP alone and with both protocols.
pub open spec fn wants_tcp(config: ConfigView) -> bool {
    config.scan_mode == ScanMode::Tcp || config.scan_mode == ScanMode::Both
}

/// UDP ports are scanned: with UDP alone and with both protocols.
pub open spec fn wants_udp(config: ConfigView) -> bool {
    config.scan_mode == ScanMode::Udp || config.scan_mode == ScanMode::Both
}

/// One of the probes found an open port.
pub open spec fn finds_open(probes: Option<Seq<Option<(u16, PortStatus)>>>) -> bool {
    probes matches Some(s) && exists|i: int|
        0 <= i < s.len() && (#[trigger] s[i] matches Some((_, PortStatus::Open)))
}

/// There is an open TCP port.
pub open spec fn tcp_open(config: ConfigView, f: FindingsView) -> bool {
    wants_tcp(config) && finds_open(f.tcp_probes)
}

/// There is an open UDP port.
pub open spec fn udp_open(config: ConfigView, f: FindingsView) -> bool {
    wants_udp(config) && finds_open(f.udp_probes)
}

/// What the probes of a protocol come to.
pub open spec fn results(
    wanted: bool,
    probes: Option<Seq<Option<(u16, PortStatus)>>>,
    is_udp: bool,
) -> ResultsView {
    if wanted && probes is Some {
        scan_results(probe_results(probes->0), is_udp)
    } else {
        ResultsView { open: Seq::empty(), filtered: Seq::empty(), closed: 0 }
    }
}

/// The services of a protocol, once they are known.
pub open spec fn found_services(
    open: bool,
    detections: Option<core::result::Result<Seq<(u16, DetectionView)>, ErrorView>>,
    is_udp: bool,
) -> Seq<PortView> {
    if open && detections is Some && detections->0 is Ok {
        detected(detections->0->Ok_0, is_udp)
    } else {
        Seq::empty()
    }
}

proof fn lemma_open(probes: Seq<Option<(u16, PortStatus)>>, is_udp: bool)
    ensures
        scan_results(probe_results(probes), is_udp).open.len() > 0 <==> finds_open(Some(probes)),
{
    let open = scan_results(probe_results(probes), is_udp).open;
    if open.len() > 0 {
        let port = open[0].port;
        theorem_reports_are_true(probe_results(probes), is_udp, port);
        assert(numbers_of(open)[0] == port);
        assert(numbers_of(open).contains(port));
        let all = probe_results(probes);
        let i = choose|i: int| 0 <= i < all.len() && all[i] == (port, PortStatus::Open);
        assert(probes[i] matches Some((_, PortStatus::Open)));
    }
    if finds_open(Some(probes)) {
        let i = choose|i: int|
            0 <= i < probes.len() && (#[trigger] probes[i] matches Some((_, PortStatus::Open)));
        let pair = probes[i]->0;
        let port = pair.0;
        let all = probe_results(probes);
        assert(all[i] == (port, PortStatus::Open));
        assert(all.contains((port, PortStatus::Open)));
        theorem_reports_are_true(all, is_udp, port);
    }
}

proof fn lemma_results(config: ConfigView, f: FindingsView)
    ensures
        f.tcp(config) == results(wants_tcp(config), f.tcp_probes, false),
        f.udp(config) == results(wants_udp(config), f.udp_probes, true),
        f.tcp(config).open.len() > 0 <==> tcp_open(config, f),
        f.udp(config).open.len() > 0 <==> udp_open(config, f),
{
    if f.tcp_probes is Some {
        lemma_open(f.tcp_probes->0, false);
    }
    if f.udp_probes is Some {
        lemma_open(f.udp_probes->0, true);
    }
}

/// The results of a protocol are those of its probes, where it is scanned at
/// all, and do not hang on the other protocol.
pub proof fn theorem_results_of_run(config: ConfigView, f: FindingsView)
    ensures
        f.tcp(config) == results(wants_tcp(config), f.tcp_probes, false),
        f.udp(config) == results(wants_udp(config), f.udp_probes, true),
{
    lemma_results(config, f);
}

/// The services of a run are those found on the open TCP ports together with
/// those found on the open UDP ports, each protocol by itself: nothing is left
/// out and nothing comes in besides. On one port TCP comes first; the ports are
/// in order.
pub proof fn theorem_services_of_run(config: ConfigView, f: FindingsView, on: u16)
    ensures
        ({
            let tcp = found_services(tcp_open(config, f), f.tcp_detections, false);
            let udp = found_services(udp_open(config, f), f.udp_detections, true);
            let services = f.services(config);
            &&& services.len() == tcp.len() + udp.len()
            &&& services.to_multiset() == (tcp + udp).to_multiset()
            &&& services.filter(|p: PortView| p.port == on) == tcp.filter(
                |p: PortView| p.port == on,
            ) + udp.filter(|p: PortView| p.port == on)
            &&& forall|i: int, j: int|
                0 <= i <= j < services.len() ==> (#[trigger] services[i]).port <= (
                #[trigger] services[j]).port
        }),
{
    lemma_results(config, f);
    let tcp = found_services(tcp_open(config, f), f.tcp_detections, false);
    let udp = found_services(udp_open(config, f), f.udp_detections, true);
    let here = |p: PortView| p.port == on;
    assert(f.services(config) == sorting::sorted(tcp + udp));
    sorting::theorem_sorted(tcp + udp, on);
    assert(sorting::on_port::<PortView>(on) =~= here);
    Seq::filter_distributes_over_add(tcp, udp, here);
    let services = f.services(config);
    assert forall|i: int, j: int| 0 <= i <= j < services.len() implies (
    #[trigger] services[i]).port <= (#[trigger] services[j]).port by {
        assert(services[i].port == sorting::HasPort::port_key(services[i]));
        assert(services[j].port == sorting::HasPort::port_key(services[j]));
    }
}

/// With open ports of one protocol only, the services are those of that
/// protocol, in order.
pub proof fn theorem_services_of_one_protocol(config: ConfigView, f: FindingsView)
    ensures
        tcp_open(config, f) && !udp_open(config, f) ==> f.services(config) == sorting::sorted(
            found_services(true, f.tcp_detections, false),
        ),
        udp_open(config, f) && !tcp_open(config, f) ==> f.services(config) == sorting::sorted(
            found_services(true, f.udp_detections, true),
        ),
        !udp_open(config, f) && !tcp_open(config, f) ==> f.services(config).len() == 0,
{
    lemma_results(config, f);
    let tcp = found_services(true, f.tcp_detections, false);
    let udp = found_services(true, f.udp_detections, true);
    assert(tcp + Seq::empty() =~= tcp);
    assert(Seq::empty() + udp =~= udp);
}

/// A step without anything to show.
pub open spec fn silently(step: RunStepView, action: ActionView) -> bool {
    step.warnings.len() == 0 && step.lines.len() == 0 && step.action == action
}

/// First the tools are looked for, then the target is looked up. What is
/// missing or refused ends the run.
pub proof fn theorem_start(config: ConfigView, f: FindingsView)
    ensures
        f.tools is None ==> silently(run_step(config, f), ActionView::CheckTools),
        forall|searchsploit: bool, nmap: bool|
            f.tools == Some((searchsploit, nmap)) && !(searchsploit && nmap)
                ==> #[trigger] dependencies(searchsploit, nmap) is Err && silently(
                run_step(config, f),
                ActionView::Fail(dependencies(searchsploit, nmap)->Err_0),
            ),
        f.tools == Some((true, true)) && checked_target(config.target) is Err ==> silently(
            run_step(config, f),
            ActionView::Fail(checked_target(config.target)->Err_0),
        ),
        f.tools == Some((true, true)) && checked_target(config.target) is Ok && f.addresses is None
            ==> silently(
            run_step(config, f),
            ActionView::ResolveTarget { name: config.target + ":0"@ },
        ),
        f.tools == Some((true, true)) && checked_target(config.target) is Ok ==> (
        f.addresses matches Some(Err(e)) ==> silently(run_step(config, f), ActionView::Fail(e))),
{
}

/// The tools are there and the target has addresses.
pub open spec fn under_way(config: ConfigView, f: FindingsView) -> bool {
    &&& f.tools == Some((true, true))
    &&& checked_target(config.target) is Ok
    &&& f.addresses == Some(Ok::<(), ErrorView>(()))
}

/// The line that announces a scan.
pub open spec fn announced(config: ConfigView, kind: Seq<char>) -> LineView {
    seq![
        SpanView { text: "  "@, style: Style::Plain },
        SpanView { text: config.target, style: Style::BoldBrightCyan },
        SpanView {
            text: "  scanning top "@ + (if config.port_limit == 65535 {
                "all"@
            } else {
                decimal::digits_of(config.port_limit as nat)
            }) + kind + " ports"@,
            style: Style::Plain,
        },
    ]
}

/// Lines, unless the output is JSON.
pub open spec fn shown(config: ConfigView, lines: Seq<LineView>) -> Seq<LineView> {
    if config.json_mode {
        Seq::empty()
    } else {
        lines
    }
}

/// The lines about the results of a scan, unless the output is JSON or there
/// was nothing to scan.
pub open spec fn results_lines(config: ConfigView, r: ResultsView, is_udp: bool) -> Seq<LineView> {
    if config.json_mode || config.port_limit == 0 {
        Seq::empty()
    } else {
        summary_lines(r, is_udp)
    }
}

/// Every port from 1 up to the limit, in order.
pub open spec fn all_ports(ports: Seq<u16>, limit: u16) -> bool {
    ports.len() == limit && forall|i: int| 0 <= i < ports.len() ==> #[trigger] ports[i] == i + 1
}

/// Where TCP is scanned it is scanned first, on every port up to the limit.
pub proof fn theorem_tcp_scan(config: ConfigView, f: FindingsView)
    requires
        under_way(config, f),
        wants_tcp(config),
        f.tcp_probes is None,
    ensures
        ({
            let step = run_step(config, f);
            &&& step.action matches ActionView::ScanTcp { ports } && all_ports(
                ports,
                config.port_limit,
            )
            &&& step.warnings.len() == 0
            &&& config.scan_mode == ScanMode::Tcp ==> step.lines == shown(
                config,
                seq![announced(config, ""@)],
            )
            &&& config.scan_mode == ScanMode::Both ==> step.lines == shown(
                config,
                seq![announced(config, " TCP"@)],
            )
        }),
{
}

/// Where UDP is scanned it is scanned next, on every port up to the limit; the
/// results of a TCP scan before it are shown first.
pub proof fn theorem_udp_scan(config: ConfigView, f: FindingsView)
    requires
        under_way(config, f),
        wants_udp(config),
        wants_tcp(config) ==> f.tcp_probes is Some,
        f.udp_probes is None,
    ensures
        ({
            let step = run_step(config, f);
            &&& step.action matches ActionView::ScanUdp { ports } && all_ports(
                ports,
                config.port_limit,
            )
            &&& step.warnings.len() == 0
            &&& config.scan_mode == ScanMode::Udp ==> step.lines == shown(
                config,
                seq![announced(config, " UDP"@)],
            )
            &&& config.scan_mode == ScanMode::Both ==> step.lines == results_lines(
                config,
                results(true, f.tcp_probes, false),
                false,
            ) + shown(config, seq![announced(config, " UDP"@)])
        }),
{
    lemma_results(config, f);
}

/// Every scan that is wanted has been made.
pub open spec fn scanned(config: ConfigView, f: FindingsView) -> bool {
    &&& under_way(config, f)
    &&& wants_tcp(config) ==> f.tcp_probes is Some
    &&& wants_udp(config) ==> f.udp_probes is Some
}

/// The lines about the scan that was made last.
pub open spec fn last_results(config: ConfigView, f: FindingsView) -> Seq<LineView> {
    if wants_udp(config) {
        results_lines(config, results(true, f.udp_probes, true), true)
    } else {
        results_lines(config, results(true, f.tcp_probes, false), false)
    }
}

/// A warning.
pub open spec fn warned(message: Seq<char>) -> LineView {
    seq![
        SpanView { text: "WARNING"@, style: Style::Yellow },
        SpanView { text: " "@ + message, style: Style::Plain },
    ]
}

/// Without an open port the run ends, with a warning.
pub proof fn theorem_nothing_open(config: ConfigView, f: FindingsView)
    requires
        scanned(config, f),
        !tcp_open(config, f),
        !udp_open(config, f),
    ensures
        run_step(config, f).action == ActionView::Stop,
        run_step(config, f).warnings.len() == 0,
        run_step(config, f).lines == last_results(config, f) + shown(
            config,
            seq![warned("No open ports found"@)],
        ),
{
    lemma_results(config, f);
}

/// The ports are those of the open entries, in their order.
pub open spec fn open_numbers(r: ResultsView, ports: Seq<u16>) -> bool {
    ports.len() == r.open.len() && forall|i: int|
        0 <= i < ports.len() ==> #[trigger] ports[i] == r.open[i].port
}

/// The services on open TCP ports are recognised first, and where nothing can
/// recognise them the run fails.
pub proof fn theorem_tcp_detection(config: ConfigView, f: FindingsView)
    requires
        scanned(config, f),
        tcp_open(config, f),
    ensures
        f.tcp_detections is None ==> {
            let step = run_step(config, f);
            &&& step.action matches ActionView::DetectServices { ports, is_udp, timeout }
                && open_numbers(results(true, f.tcp_probes, false), ports) && !is_udp && timeout
                == 30_000_000_000
            &&& step.warnings.len() == 0
            &&& step.lines == last_results(config, f)
        },
        f.tcp_detections matches Some(Err(e)) ==> silently(
            run_step(config, f),
            ActionView::Fail(e),
        ),
{
    lemma_results(config, f);
}

/// The services on open TCP ports, if there are any, have been recognised.
pub open spec fn tcp_recognised(config: ConfigView, f: FindingsView) -> bool {
    scanned(config, f) && (tcp_open(config, f) ==> f.tcp_detections is Some
        && f.tcp_detections->0 is Ok)
}

/// Then the services on open UDP ports are recognised, whether or not there are
/// open TCP ports.
pub proof fn theorem_udp_detection(config: ConfigView, f: FindingsView)
    requires
        tcp_recognised(config, f),
        udp_open(config, f),
    ensures
        f.udp_detections is None ==> {
            let step = run_step(config, f);
            &&& step.action matches ActionView::DetectServices { ports, is_udp, timeout }
                && open_numbers(results(true, f.udp_probes, true), ports) && is_udp && timeout
                == 30_000_000_000
            &&& tcp_open(config, f) ==> step.warnings == detection_warnings(
                f.tcp_detections->0->Ok_0,
            ) && step.lines.len() == 0
            &&& !tcp_open(config, f) ==> step.warnings.len() == 0 && step.lines == last_results(
                config,
                f,
            )
        },
        f.udp_detections matches Some(Err(e)) ==> silently(
            run_step(config, f),
            ActionView::Fail(e),
        ),
{
    lemma_results(config, f);
}

/// All services on open ports have been recognised, and there are open ports.
pub open spec fn recognised(config: ConfigView, f: FindingsView) -> bool {
    &&& tcp_recognised(config, f)
    &&& tcp_open(config, f) || udp_open(config, f)
    &&& udp_open(config, f) ==> f.udp_detections is Some && f.udp_detections->0 is Ok
}

/// With services the operating system is found out next, and without any the
/// run ends; the warnings of the last detection are shown first.
pub proof fn theorem_after_detection(config: ConfigView, f: FindingsView)
    requires
        recognised(config, f),
    ensures
        ({
            let step = run_step(config, f);
            let services = f.services(config);
            let warnings = if udp_open(config, f) {
                detection_warnings(f.udp_detections->0->Ok_0)
            } else {
                detection_warnings(f.tcp_detections->0->Ok_0)
            };
            &&& services.len() == 0 ==> step.action == ActionView::Stop && step.warnings
                == warnings && step.lines == shown(config, seq![warned("No services detected"@)])
            &&& services.len() > 0 && f.os is None ==> step.action == (ActionView::DetectOs {
                services,
                timeout: 30_000_000_000,
            }) && step.warnings == warnings && step.lines == shown(config, service_lines(services))
        }),
{
    lemma_results(config, f);
}

/// The services and the operating system have been found out.
pub open spec fn explored(config: ConfigView, f: FindingsView) -> bool {
    recognised(config, f) && f.services(config).len() > 0 && f.os is Some
}

/// Where scripts are asked for they run on all open ports, those of TCP first.
pub proof fn theorem_scripts(config: ConfigView, f: FindingsView, script: Seq<char>)
    requires
        explored(config, f),
        config.nse_script == Some(script),
        f.scripts is None,
    ensures
        ({
            let step = run_step(config, f);
            let tcp = results(wants_tcp(config), f.tcp_probes, false).open;
            let udp = results(wants_udp(config), f.udp_probes, true).open;
            &&& step.action matches ActionView::RunScripts { script: s, ports, timeout } && s
                == script && timeout == 60_000_000_000 && ports.len() == tcp.len() + udp.len() && (
            forall|i: int| 0 <= i < tcp.len() ==> #[trigger] ports[i] == tcp[i].port) && (forall|
                i: int,
            |
                0 <= i < udp.len() ==> #[trigger] ports[tcp.len() + i] == udp[i].port)
            &&& step.warnings.len() == 0
            &&& step.lines == shown(config, os_lines(f.os->0.os, f.os->0.shown_percent))
        }),
{
    lemma_results(config, f);
}

/// Exploits are looked for once the scripts have run, or at once where there are
/// none to run.
pub proof fn theorem_exploits(config: ConfigView, f: FindingsView)
    requires
        explored(config, f),
        config.nse_script is Some ==> f.scripts is Some,
    ensures
        f.exploits is None ==> {
            let step = run_step(config, f);
            &&& step.action == (ActionView::SearchExploits { services: f.services(config) })
            &&& config.nse_script is None ==> step.warnings.len() == 0 && step.lines == shown(
                config,
                os_lines(f.os->0.os, f.os->0.shown_percent),
            )
            &&& config.nse_script is Some ==> step.warnings == f.scripts->0.warnings()
                && step.lines == shown(config, nse_lines(f.scripts->0.results()))
        },
        f.exploits matches Some(Err(e)) ==> silently(run_step(config, f), ActionView::Fail(e)),
{
    lemma_results(config, f);
}

/// At the end the exploits are shown, or all results are written as JSON.
pub proof fn theorem_end(config: ConfigView, f: FindingsView)
    requires
        explored(config, f),
        config.nse_script is Some ==> f.scripts is Some,
        f.exploits == Some(Ok::<(), ErrorView>(())),
    ensures
        !config.json_mode ==> silently(
            run_step(config, f),
            ActionView::ShowExploits { services: f.services(config) },
        ),
        config.json_mode && f.json is None ==> silently(
            run_step(config, f),
            ActionView::Serialize { services: f.services(config), os: f.os->0.os },
        ),
        config.json_mode ==> (f.json matches Some(Ok(text)) ==> run_step(config, f).action
            == ActionView::Stop && run_step(config, f).warnings.len() == 0 && run_step(
            config,
            f,
        ).lines == seq![seq![SpanView { text, style: Style::Plain }]]),
        config.json_mode ==> (f.json matches Some(Err(e)) ==> silently(
            run_step(config, f),
            ActionView::Fail(ErrorView::Parse("Failed to serialize JSON: "@ + e)),
        )),
{
    lemma_results(config, f);
}

} // verus!
