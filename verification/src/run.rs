//! The course of a run: what is done next and what is shown, given what has
//! been found so far.

use crate::config::{Config, ConfigView, ScanMode};
use crate::constants;
use crate::detection::{
    detect_services, detected, detection_warnings, run_nse_scripts, warn_about_detections,
    Detection, DetectionView, OsResult, OsView, ScriptRun, ScriptRunView,
};
use crate::duration::Duration;
use crate::error::{ErrorView, Outcome, OxideScannerError};
use crate::report::{
    nse_lines, nse_report, os_lines, os_report, plain, scan_announcement, scan_line, scan_summary,
    service_lines, service_report, summary_lines, warning, warning_line, Line, LineView, SpanView,
};
use crate::scanner::{
    collect_results, numbers_of, port_numbers, probe_results, scan_results,
    theorem_reports_are_true, Port, PortStatus, PortView, ResultsView, ScanResults,
};
use crate::setup::answered;
use crate::sorting;
use crate::text::cat;
use crate::utils::{
    check_dependencies, dependencies, get_port_list, lookup_name, ports_up_to, target_lookup_name,
};
use vstd::prelude::*;

verus! {

/// How the task for each port of a scan ended.
pub type Probes = Vec<Option<(u16, PortStatus)>>;

/// An operating system, where one was recognised, and how sure the detection
/// is, in percent as it is to be shown.
#[derive(Debug)]
pub struct OsFinding {
    pub os: Option<OsResult>,
    pub shown_percent: u8,
}

/// An operating system by its contents.
#[verifier::ext_equal]
pub struct OsFindingView {
    pub os: Option<OsView>,
    pub shown_percent: u8,
}

impl DeepView for OsFinding {
    type V = OsFindingView;

    open spec fn deep_view(&self) -> OsFindingView {
        OsFindingView { os: self.os.deep_view(), shown_percent: self.shown_percent }
    }
}

/// What has been found so far.
#[derive(Debug)]
pub struct Findings {
    /// Whether `searchsploit` and `nmap` are there.
    pub tools: Option<(bool, bool)>,
    /// Whether the target has addresses.
    pub addresses: Option<Outcome<()>>,
    pub tcp_probes: Option<Probes>,
    pub udp_probes: Option<Probes>,
    pub tcp_detections: Option<Outcome<Vec<(u16, Detection)>>>,
    pub udp_detections: Option<Outcome<Vec<(u16, Detection)>>>,
    pub os: Option<OsFinding>,
    pub scripts: Option<ScriptRun>,
    /// Whether the search for exploits went well.
    pub exploits: Option<Outcome<()>>,
    /// The results as JSON, or why they cannot be written so.
    pub json: Option<core::result::Result<String, String>>,
}

/// What has been found so far, by its contents.
#[verifier::ext_equal]
pub struct FindingsView {
    pub tools: Option<(bool, bool)>,
    pub addresses: Option<core::result::Result<(), ErrorView>>,
    pub tcp_probes: Option<Seq<Option<(u16, PortStatus)>>>,
    pub udp_probes: Option<Seq<Option<(u16, PortStatus)>>>,
    pub tcp_detections: Option<core::result::Result<Seq<(u16, DetectionView)>, ErrorView>>,
    pub udp_detections: Option<core::result::Result<Seq<(u16, DetectionView)>, ErrorView>>,
    pub os: Option<OsFindingView>,
    pub scripts: Option<ScriptRunView>,
    pub exploits: Option<core::result::Result<(), ErrorView>>,
    pub json: Option<core::result::Result<Seq<char>, Seq<char>>>,
}

/// The probes of a scan, where there are any.
pub open spec fn probes_view(probes: Option<Probes>) -> Option<Seq<Option<(u16, PortStatus)>>> {
    match probes {
        Some(probes) => Some(probes@),
        None => None,
    }
}

impl DeepView for Findings {
    type V = FindingsView;

    open spec fn deep_view(&self) -> FindingsView {
        FindingsView {
            tools: self.tools,
            addresses: answered(self.addresses),
            tcp_probes: probes_view(self.tcp_probes),
            udp_probes: probes_view(self.udp_probes),
            tcp_detections: answered(self.tcp_detections),
            udp_detections: answered(self.udp_detections),
            os: self.os.deep_view(),
            scripts: self.scripts.deep_view(),
            exploits: answered(self.exploits),
            json: match self.json {
                Some(Ok(text)) => Some(Ok(text@)),
                Some(Err(e)) => Some(Err(e@)),
                None => None,
            },
        }
    }
}

/// What is done next.
#[derive(Debug)]
pub enum Action {
    /// Look for `searchsploit` and `nmap`.
    CheckTools,
    /// Look the name up.
    ResolveTarget { name: String },
    /// Try to connect to each of the ports.
    ScanTcp { ports: Vec<u16> },
    /// Send a datagram to each of the ports.
    ScanUdp { ports: Vec<u16> },
    /// Have nmap recognise the service on each of the ports.
    DetectServices { ports: Vec<u16>, is_udp: bool, timeout: Duration },
    /// Find out the operating system.
    DetectOs { services: Vec<Port>, timeout: Duration },
    /// Have nmap run the scripts on the ports.
    RunScripts { script: String, ports: Vec<u16>, timeout: Duration },
    /// Look for exploits of the services.
    SearchExploits { services: Vec<Port> },
    /// Write the results as JSON.
    Serialize { services: Vec<Port>, os: Option<OsResult> },
    /// Show the exploits, and stop.
    ShowExploits { services: Vec<Port> },
    /// Stop; the run went well.
    Stop,
    /// Stop; the run failed.
    Fail(OxideScannerError),
}

/// What is done next, by its contents.
#[verifier::ext_equal]
pub enum ActionView {
    CheckTools,
    ResolveTarget { name: Seq<char> },
    ScanTcp { ports: Seq<u16> },
    ScanUdp { ports: Seq<u16> },
    DetectServices { ports: Seq<u16>, is_udp: bool, timeout: nat },
    DetectOs { services: Seq<PortView>, timeout: nat },
    RunScripts { script: Seq<char>, ports: Seq<u16>, timeout: nat },
    SearchExploits { services: Seq<PortView> },
    Serialize { services: Seq<PortView>, os: Option<OsView> },
    ShowExploits { services: Seq<PortView> },
    Stop,
    Fail(ErrorView),
}

impl DeepView for Action {
    type V = ActionView;

    open spec fn deep_view(&self) -> ActionView {
        match *self {
            Action::CheckTools => ActionView::CheckTools,
            Action::ResolveTarget { name } => ActionView::ResolveTarget { name: name@ },
            Action::ScanTcp { ports } => ActionView::ScanTcp { ports: ports@ },
            Action::ScanUdp { ports } => ActionView::ScanUdp { ports: ports@ },
            Action::DetectServices { ports, is_udp, timeout } => ActionView::DetectServices {
                ports: ports@,
                is_udp,
                timeout: timeout.deep_view(),
            },
            Action::DetectOs { services, timeout } => ActionView::DetectOs {
                services: services.deep_view(),
                timeout: timeout.deep_view(),
            },
            Action::RunScripts { script, ports, timeout } => ActionView::RunScripts {
                script: script@,
                ports: ports@,
                timeout: timeout.deep_view(),
            },
            Action::SearchExploits { services } => ActionView::SearchExploits {
                services: services.deep_view(),
            },
            Action::Serialize { services, os } => ActionView::Serialize {
                services: services.deep_view(),
                os: os.deep_view(),
            },
            Action::ShowExploits { services } => ActionView::ShowExploits {
                services: services.deep_view(),
            },
            Action::Stop => ActionView::Stop,
            Action::Fail(e) => ActionView::Fail(e.deep_view()),
        }
    }
}

/// A step of a run: the warnings and the lines to show first, and what is done
/// then.
#[derive(Debug)]
pub struct RunStep {
    /// For the error output.
    pub warnings: Vec<Line>,
    /// For the output.
    pub lines: Vec<Line>,
    pub action: Action,
}

/// A step of a run by its contents.
#[verifier::ext_equal]
pub struct RunStepView {
    pub warnings: Seq<LineView>,
    pub lines: Seq<LineView>,
    pub action: ActionView,
}

impl DeepView for RunStep {
    type V = RunStepView;

    open spec fn deep_view(&self) -> RunStepView {
        RunStepView {
            warnings: self.warnings.deep_view(),
            lines: self.lines.deep_view(),
            action: self.action.deep_view(),
        }
    }
}

impl RunStepView {
    /// A step that shows nothing.
    pub open spec fn quiet(action: ActionView) -> RunStepView {
        RunStepView { warnings: Seq::empty(), lines: Seq::empty(), action }
    }
}

/// Lines that are not shown where the output is JSON.
pub open spec fn unless_json(config: ConfigView, lines: Seq<LineView>) -> Seq<LineView> {
    if config.json_mode {
        Seq::empty()
    } else {
        lines
    }
}

/// The time that nmap has for a detection, in nanoseconds.
pub open spec fn nmap_timeout() -> nat {
    (constants::NMAP_TIMEOUT_SECS * 1_000_000_000) as nat
}

/// The time that nmap has for scripts, in nanoseconds.
pub open spec fn script_timeout() -> nat {
    2 * nmap_timeout()
}

impl ConfigView {
    /// TCP ports are scanned.
    pub open spec fn scans_tcp(self) -> bool {
        self.scan_mode != ScanMode::Udp
    }

    /// UDP ports are scanned.
    pub open spec fn scans_udp(self) -> bool {
        self.scan_mode != ScanMode::Tcp
    }

    /// What the TCP ports are called in the announcement: only with both
    /// protocols there is need of a name.
    pub open spec fn tcp_kind(self) -> Seq<char> {
        if self.scans_udp() {
            " TCP"@
        } else {
            ""@
        }
    }

    /// The announcement of a scan.
    pub open spec fn announcement(self, kind: Seq<char>) -> Seq<LineView> {
        unless_json(self, seq![scan_line(self.target, self.port_limit, kind)])
    }

    /// The lines about the results of a scan. A scan of no ports is passed
    /// over.
    pub open spec fn results_shown(self, results: ResultsView, is_udp: bool) -> Seq<LineView> {
        if self.port_limit == 0 {
            Seq::empty()
        } else {
            unless_json(self, summary_lines(results, is_udp))
        }
    }
}

/// The results of a scan; none where there was no scan.
pub open spec fn results_of(
    scanned: bool,
    probes: Option<Seq<Option<(u16, PortStatus)>>>,
    is_udp: bool,
) -> ResultsView {
    match probes {
        Some(probes) if scanned => scan_results(probe_results(probes), is_udp),
        _ => ResultsView { open: Seq::empty(), filtered: Seq::empty(), closed: 0 },
    }
}

/// The services of a protocol, once they are known.
pub open spec fn services_of(
    detections: Option<core::result::Result<Seq<(u16, DetectionView)>, ErrorView>>,
    is_udp: bool,
) -> Seq<PortView> {
    match detections {
        Some(Ok(detections)) => detected(detections, is_udp),
        _ => Seq::empty(),
    }
}

/// The warnings about a detection, once it is known.
pub open spec fn warnings_of(
    detections: Option<core::result::Result<Seq<(u16, DetectionView)>, ErrorView>>,
) -> Seq<LineView> {
    match detections {
        Some(Ok(detections)) => detection_warnings(detections),
        _ => Seq::empty(),
    }
}

impl FindingsView {
    /// The results of the TCP scan.
    pub open spec fn tcp(self, config: ConfigView) -> ResultsView {
        results_of(config.scans_tcp(), self.tcp_probes, false)
    }

    /// The results of the UDP scan.
    pub open spec fn udp(self, config: ConfigView) -> ResultsView {
        results_of(config.scans_udp(), self.udp_probes, true)
    }

    /// The services of the target, in order.
    pub open spec fn services(self, config: ConfigView) -> Seq<PortView> {
        sorting::sorted(
            (if self.tcp(config).open.len() == 0 {
                Seq::empty()
            } else {
                services_of(self.tcp_detections, false)
            }) + (if self.udp(config).open.len() == 0 {
                Seq::empty()
            } else {
                services_of(self.udp_detections, true)
            }),
        )
    }
}

/// What is done next. The stages come in a fixed order, and the first of which
/// nothing is known yet, or which failed, decides.
pub open spec fn run_step(config: ConfigView, f: FindingsView) -> RunStepView {
    match (f.tools, lookup_name(config.target)) {
        (None, _) => RunStepView::quiet(ActionView::CheckTools),
        (Some(found), name) => match (dependencies(found.0, found.1), name, f.addresses) {
            (Err(e), _, _) => RunStepView::quiet(ActionView::Fail(e)),
            (Ok(_), Err(e), _) => RunStepView::quiet(ActionView::Fail(e)),
            (Ok(_), Ok(name), None) => RunStepView::quiet(ActionView::ResolveTarget { name }),
            (Ok(_), Ok(_), Some(Err(e))) => RunStepView::quiet(ActionView::Fail(e)),
            (Ok(_), Ok(_), Some(Ok(_))) => scan_step(config, f),
        },
    }
}

/// What is done once the target has addresses: TCP ports are scanned first.
pub open spec fn scan_step(config: ConfigView, f: FindingsView) -> RunStepView {
    if config.scans_tcp() && f.tcp_probes is None {
        RunStepView {
            warnings: Seq::empty(),
            lines: config.announcement(config.tcp_kind()),
            action: ActionView::ScanTcp { ports: ports_up_to(config.port_limit) },
        }
    } else if config.scans_udp() && f.udp_probes is None {
        RunStepView {
            warnings: Seq::empty(),
            lines: (if config.scans_tcp() {
                config.results_shown(f.tcp(config), false)
            } else {
                Seq::empty()
            }) + config.announcement(" UDP"@),
            action: ActionView::ScanUdp { ports: ports_up_to(config.port_limit) },
        }
    } else {
        detection_step(config, f)
    }
}

/// The lines about the last scan.
pub open spec fn last_scan_lines(config: ConfigView, f: FindingsView) -> Seq<LineView> {
    if config.scans_udp() {
        config.results_shown(f.udp(config), true)
    } else {
        config.results_shown(f.tcp(config), false)
    }
}

/// What is done once the ports are scanned: without an open port nothing more,
/// else the services on the open ports are recognised, TCP first.
pub open spec fn detection_step(config: ConfigView, f: FindingsView) -> RunStepView {
    let tcp = f.tcp(config).open;
    let udp = f.udp(config).open;
    if tcp.len() == 0 && udp.len() == 0 {
        RunStepView {
            warnings: Seq::empty(),
            lines: last_scan_lines(config, f) + unless_json(
                config,
                seq![warning_line("No open ports found"@)],
            ),
            action: ActionView::Stop,
        }
    } else if tcp.len() > 0 && f.tcp_detections is None {
        RunStepView {
            warnings: Seq::empty(),
            lines: last_scan_lines(config, f),
            action: ActionView::DetectServices {
                ports: numbers_of(tcp),
                is_udp: false,
                timeout: nmap_timeout(),
            },
        }
    } else if tcp.len() > 0 && f.tcp_detections->0 is Err {
        RunStepView::quiet(ActionView::Fail(f.tcp_detections->0->Err_0))
    } else if udp.len() > 0 && f.udp_detections is None {
        RunStepView {
            warnings: if tcp.len() > 0 {
                warnings_of(f.tcp_detections)
            } else {
                Seq::empty()
            },
            lines: if tcp.len() > 0 {
                Seq::empty()
            } else {
                last_scan_lines(config, f)
            },
            action: ActionView::DetectServices {
                ports: numbers_of(udp),
                is_udp: true,
                timeout: nmap_timeout(),
            },
        }
    } else if udp.len() > 0 && f.udp_detections->0 is Err {
        RunStepView::quiet(ActionView::Fail(f.udp_detections->0->Err_0))
    } else {
        os_step(config, f)
    }
}

/// What is done once the services are known: without any nothing more, else the
/// operating system is found out.
pub open spec fn os_step(config: ConfigView, f: FindingsView) -> RunStepView {
    let services = f.services(config);
    let warnings = warnings_of(
        if f.udp(config).open.len() > 0 {
            f.udp_detections
        } else {
            f.tcp_detections
        },
    );
    if services.len() == 0 {
        RunStepView {
            warnings,
            lines: unless_json(config, seq![warning_line("No services detected"@)]),
            action: ActionView::Stop,
        }
    } else {
        match f.os {
            None => RunStepView {
                warnings,
                lines: unless_json(config, service_lines(services)),
                action: ActionView::DetectOs { services, timeout: nmap_timeout() },
            },
            Some(os) => script_step(config, f, os),
        }
    }
}

/// What is done once the operating system is known: the scripts are run on the
/// open ports, where there are scripts to run.
pub open spec fn script_step(config: ConfigView, f: FindingsView, os: OsFindingView) -> RunStepView {
    let lines = unless_json(config, os_lines(os.os, os.shown_percent));
    match (config.nse_script, f.scripts) {
        (None, _) => exploit_step(config, f, os, Seq::empty(), lines),
        (Some(script), None) => RunStepView {
            warnings: Seq::empty(),
            lines,
            action: ActionView::RunScripts {
                script,
                ports: numbers_of(f.tcp(config).open) + numbers_of(f.udp(config).open),
                timeout: script_timeout(),
            },
        },
        (Some(_), Some(run)) => exploit_step(
            config,
            f,
            os,
            run.warnings(),
            unless_json(config, nse_lines(run.results())),
        ),
    }
}

/// What is done at the end: exploits are looked for, and the results are
/// written or shown. The warnings and the lines are those of the stage before.
pub open spec fn exploit_step(
    config: ConfigView,
    f: FindingsView,
    os: OsFindingView,
    warnings: Seq<LineView>,
    lines: Seq<LineView>,
) -> RunStepView {
    let services = f.services(config);
    match f.exploits {
        None => RunStepView { warnings, lines, action: ActionView::SearchExploits { services } },
        Some(Err(e)) => RunStepView::quiet(ActionView::Fail(e)),
        Some(Ok(_)) => if !config.json_mode {
            RunStepView::quiet(ActionView::ShowExploits { services })
        } else {
            match f.json {
                None => RunStepView::quiet(ActionView::Serialize { services, os: os.os }),
                Some(Ok(text)) => RunStepView {
                    warnings: Seq::empty(),
                    lines: seq![seq![SpanView::plain(text)]],
                    action: ActionView::Stop,
                },
                Some(Err(e)) => RunStepView::quiet(
                    ActionView::Fail(ErrorView::Parse("Failed to serialize JSON: "@ + e)),
                ),
            }
        },
    }
}

/// What is asked for is not known yet: nothing is done twice.
pub proof fn theorem_progress(config: ConfigView, f: FindingsView)
    ensures
        match run_step(config, f).action {
            ActionView::CheckTools => f.tools is None,
            ActionView::ResolveTarget { .. } => f.addresses is None,
            ActionView::ScanTcp { .. } => f.tcp_probes is None,
            ActionView::ScanUdp { .. } => f.udp_probes is None,
            ActionView::DetectServices { is_udp, .. } => if is_udp {
                f.udp_detections is None
            } else {
                f.tcp_detections is None
            },
            ActionView::DetectOs { .. } => f.os is None,
            ActionView::RunScripts { .. } => f.scripts is None,
            ActionView::SearchExploits { .. } => f.exploits is None,
            ActionView::Serialize { .. } => f.json is None,
            ActionView::ShowExploits { .. } => true,
            ActionView::Stop => true,
            ActionView::Fail(_) => true,
        },
{
}

/// The step ends the run.
pub open spec fn is_last(action: ActionView) -> bool {
    action is Stop || action is ShowExploits || action is Fail
}

/// How many findings are still to be made.
pub open spec fn missing(f: FindingsView) -> nat {
    let open = |is_open: bool|
        if is_open {
            1nat
        } else {
            0nat
        };
    open(f.tools is None) + open(f.addresses is None) + open(f.tcp_probes is None) + open(
        f.udp_probes is None,
    ) + open(f.tcp_detections is None) + open(f.udp_detections is None) + open(f.os is None) + open(
        f.scripts is None,
    ) + open(f.exploits is None) + open(f.json is None)
}

/// The findings once an action has been carried out, with what it brought out
/// of `news`.
pub open spec fn carried_out(f: FindingsView, action: ActionView, news: FindingsView) -> FindingsView {
    match action {
        ActionView::CheckTools => FindingsView { tools: news.tools, ..f },
        ActionView::ResolveTarget { .. } => FindingsView { addresses: news.addresses, ..f },
        ActionView::ScanTcp { .. } => FindingsView { tcp_probes: news.tcp_probes, ..f },
        ActionView::ScanUdp { .. } => FindingsView { udp_probes: news.udp_probes, ..f },
        ActionView::DetectServices { is_udp, .. } => if is_udp {
            FindingsView { udp_detections: news.udp_detections, ..f }
        } else {
            FindingsView { tcp_detections: news.tcp_detections, ..f }
        },
        ActionView::DetectOs { .. } => FindingsView { os: news.os, ..f },
        ActionView::RunScripts { .. } => FindingsView { scripts: news.scripts, ..f },
        ActionView::SearchExploits { .. } => FindingsView { exploits: news.exploits, ..f },
        ActionView::Serialize { .. } => FindingsView { json: news.json, ..f },
        _ => f,
    }
}

/// Every step but the last brings a finding, whatever it is. There are ten of
/// them, so a run ends.
pub proof fn theorem_every_step_counts(config: ConfigView, f: FindingsView, news: FindingsView)
    requires
        missing(news) == 0,
        !is_last(run_step(config, f).action),
    ensures
        missing(f) <= 10,
        missing(carried_out(f, run_step(config, f).action, news)) == missing(f) - 1,
{
    theorem_progress(config, f);
}

/// Once everything is known the run ends.
pub proof fn theorem_run_ends(config: ConfigView, f: FindingsView)
    requires
        f.tools is Some,
        f.addresses is Some,
        f.tcp_probes is Some,
        f.udp_probes is Some,
        f.tcp_detections is Some,
        f.udp_detections is Some,
        f.os is Some,
        f.scripts is Some,
        f.exploits is Some,
        f.json is Some,
    ensures
        is_last(run_step(config, f).action),
{
}

/// With JSON output nothing is shown but the results, in the last step, as one
/// text.
pub proof fn theorem_json_alone(config: ConfigView, f: FindingsView)
    requires
        config.json_mode,
    ensures
        run_step(config, f).action !is ShowExploits,
        run_step(config, f).lines.len() > 0 ==> {
            &&& run_step(config, f).action is Stop
            &&& f.json matches Some(Ok(text)) && run_step(config, f).lines == seq![
                seq![SpanView::plain(text)],
            ]
        },
{
}

/// Only the protocols of the scan mode are scanned, TCP before UDP, each time
/// on the ports up to the limit.
pub proof fn theorem_scans(config: ConfigView, f: FindingsView)
    ensures
        run_step(config, f).action matches ActionView::ScanTcp { ports } ==> config.scans_tcp()
            && ports == ports_up_to(config.port_limit),
        run_step(config, f).action matches ActionView::ScanUdp { ports } ==> config.scans_udp()
            && ports == ports_up_to(config.port_limit) && (config.scans_tcp()
            ==> f.tcp_probes is Some),
{
}

/// Services are looked for just on the ports that a probe found open.
pub proof fn theorem_detection_on_open_ports(config: ConfigView, f: FindingsView, port: u16)
    requires
        run_step(config, f).action is DetectServices,
    ensures
        run_step(config, f).action matches ActionView::DetectServices { ports, is_udp, .. } && {
            let probes = if is_udp {
                f.udp_probes
            } else {
                f.tcp_probes
            };
            &&& ports.len() > 0
            &&& probes is Some
            &&& ports.contains(port) <==> probe_results(probes->0).contains(
                (port, PortStatus::Open),
            )
        },
{
    if f.tcp_probes is Some {
        theorem_reports_are_true(probe_results(f.tcp_probes->0), false, port);
    }
    if f.udp_probes is Some {
        theorem_reports_are_true(probe_results(f.udp_probes->0), true, port);
    }
}

/// Scripts run on the open ports of both protocols.
pub proof fn theorem_scripts_on_open_ports(config: ConfigView, f: FindingsView)
    ensures
        run_step(config, f).action matches ActionView::RunScripts { script, ports, .. } ==> {
            &&& config.nse_script == Some(script)
            &&& ports == numbers_of(f.tcp(config).open) + numbers_of(f.udp(config).open)
            &&& ports.len() > 0
        },
{
}

/// What comes after the detection has services to work on, and they are in
/// order.
pub proof fn theorem_services_first(config: ConfigView, f: FindingsView)
    ensures
        sorting::ordered(f.services(config)),
        match run_step(config, f).action {
            ActionView::DetectOs { services, .. } => services == f.services(config),
            ActionView::SearchExploits { services } => services == f.services(config),
            ActionView::Serialize { services, .. } => services == f.services(config),
            ActionView::ShowExploits { services } => services == f.services(config),
            _ => true,
        },
        (run_step(config, f).action is DetectOs || run_step(config, f).action is RunScripts
            || run_step(config, f).action is SearchExploits || run_step(config, f).action is Serialize
            || run_step(config, f).action is ShowExploits) ==> f.services(config).len() > 0,
{
    let tcp = if f.tcp(config).open.len() == 0 {
        Seq::empty()
    } else {
        services_of(f.tcp_detections, false)
    };
    let udp = if f.udp(config).open.len() == 0 {
        Seq::empty()
    } else {
        services_of(f.udp_detections, true)
    };
    sorting::theorem_sorted(tcp + udp, 0);
}

/// On a port that is open with both protocols the TCP services come first, and
/// those of one protocol stay as they were detected.
pub proof fn theorem_services_on_one_port(config: ConfigView, f: FindingsView, port: u16)
    requires
        f.tcp(config).open.len() > 0,
        f.udp(config).open.len() > 0,
    ensures
        sorting::of_port(f.services(config), port) == sorting::of_port(
            services_of(f.tcp_detections, false),
            port,
        ) + sorting::of_port(services_of(f.udp_detections, true), port),
{
    let tcp = services_of(f.tcp_detections, false);
    let udp = services_of(f.udp_detections, true);
    sorting::theorem_sorted(tcp + udp, port);
    Seq::filter_distributes_over_add(tcp, udp, sorting::on_port(port));
}

/// A run fails just for these reasons: a tool is missing, the target is refused
/// or has no addresses, there is nothing to detect services with, the search
/// for exploits fails, or the results cannot be written. Scans, the detection
/// on single ports, the operating system and the scripts never end it.
pub proof fn theorem_failures(config: ConfigView, f: FindingsView)
    ensures
        run_step(config, f).action matches ActionView::Fail(e) ==> {
            ||| f.tools matches Some(found) && dependencies(found.0, found.1)
                == Err::<(), ErrorView>(e)
            ||| lookup_name(config.target) == Err::<Seq<char>, ErrorView>(e)
            ||| f.addresses == Some(Err::<(), ErrorView>(e))
            ||| f.tcp_detections == Some(Err::<Seq<(u16, DetectionView)>, ErrorView>(e))
            ||| f.udp_detections == Some(Err::<Seq<(u16, DetectionView)>, ErrorView>(e))
            ||| f.exploits == Some(Err::<(), ErrorView>(e))
            ||| f.json matches Some(Err(reason)) && e == ErrorView::Parse(
                "Failed to serialize JSON: "@ + reason,
            )
        },
{
}

/// Without an open port the run ends well, and nothing more is done.
pub proof fn theorem_no_open_port(config: ConfigView, f: FindingsView)
    requires
        f.tools == Some((true, true)),
        lookup_name(config.target) is Ok,
        f.addresses == Some(Ok::<(), ErrorView>(())),
        config.scans_tcp() ==> f.tcp_probes is Some,
        config.scans_udp() ==> f.udp_probes is Some,
        f.tcp(config).open.len() == 0,
        f.udp(config).open.len() == 0,
    ensures
        run_step(config, f).action is Stop,
{
}

/// A step that shows nothing.
fn quiet(action: Action) -> (r: RunStep)
    ensures
        r.deep_view() == RunStepView::quiet(action.deep_view()),
{
    RunStep { warnings: Vec::new(), lines: Vec::new(), action }
}

/// A step that shows lines.
fn showing(lines: Vec<Line>, action: Action) -> (r: RunStep)
    ensures
        r.deep_view() == (RunStepView {
            warnings: Seq::empty(),
            lines: lines.deep_view(),
            action: action.deep_view(),
        }),
{
    RunStep { warnings: Vec::new(), lines, action }
}

/// The results of a scan; none where there was no scan.
fn read_results(scanned: bool, probes: &Option<Probes>, is_udp: bool) -> (r: ScanResults)
    ensures
        r.deep_view() == results_of(scanned, probes_view(*probes), is_udp),
{
    match probes {
        Some(probes) if scanned => collect_results(probes.as_slice(), is_udp),
        _ => {
            ScanResults { open: Vec::new(), filtered: Vec::new(), closed: 0 }
        },
    }
}

/// The services of a protocol, once they are known.
fn read_services(detections: &Option<Outcome<Vec<(u16, Detection)>>>, is_udp: bool) -> (r: Vec<Port>)
    ensures
        r.deep_view() == services_of(answered(*detections), is_udp),
{
    match detections {
        Some(Ok(detections)) => detect_services(detections.as_slice(), is_udp),
        _ => {
            Vec::new()
        },
    }
}

/// The warnings about a detection, once it is known.
fn read_warnings(detections: &Option<Outcome<Vec<(u16, Detection)>>>) -> (r: Vec<Line>)
    ensures
        r.deep_view() == warnings_of(answered(*detections)),
{
    match detections {
        Some(Ok(detections)) => warn_about_detections(detections.as_slice()),
        _ => {
            Vec::new()
        },
    }
}

/// No lines.
fn no_lines() -> (r: Vec<Line>)
    ensures
        r.deep_view() == Seq::<LineView>::empty(),
{
    Vec::new()
}

/// One line.
fn one_line(line: Line) -> (r: Vec<Line>)
    ensures
        r.deep_view() == seq![line.deep_view()],
{
    vec![line]
}

/// The lines about the results of a scan.
fn show_results(config: &Config, results: &ScanResults, is_udp: bool) -> (r: Vec<Line>)
    ensures
        r.deep_view() == config.deep_view().results_shown(results.deep_view(), is_udp),
{
    if config.port_limit == 0 || config.json_mode {
        no_lines()
    } else {
        scan_summary(results, is_udp)
    }
}

/// The announcement of a scan.
fn announce(config: &Config, kind: &str) -> (r: Vec<Line>)
    ensures
        r.deep_view() == config.deep_view().announcement(kind@),
{
    if config.json_mode {
        no_lines()
    } else {
        one_line(scan_announcement(config.target.as_str(), config.port_limit, kind))
    }
}

/// A warning, unless the output is JSON.
fn warn_unless_json(config: &Config, message: &str) -> (r: Vec<Line>)
    ensures
        r.deep_view() == unless_json(config.deep_view(), seq![warning_line(message@)]),
{
    if config.json_mode {
        no_lines()
    } else {
        one_line(warning(message))
    }
}

/// The one list after the other.
fn chain(first: Vec<Line>, second: Vec<Line>) -> (r: Vec<Line>)
    ensures
        r.deep_view() == first.deep_view() + second.deep_view(),
{
    let mut lines = first;
    let mut rest = second;
    lines.append(&mut rest);
    lines
}

/// What has been found so far, and the configuration that says what is looked
/// for.
struct Run<'a> {
    config: &'a Config,
    findings: &'a Findings,
    tcp: ScanResults,
    udp: ScanResults,
}

impl<'a> Run<'a> {
    /// The results are those of the probes.
    spec fn wf(self) -> bool {
        let config = self.config.deep_view();
        let findings = self.findings.deep_view();
        &&& self.tcp.deep_view() == findings.tcp(config)
        &&& self.udp.deep_view() == findings.udp(config)
    }

    fn services(&self) -> (r: Vec<Port>)
        requires
            self.wf(),
        ensures
            r.deep_view() == self.findings.deep_view().services(self.config.deep_view()),
    {
        let mut services: Vec<Port> = Vec::new();
        if !self.tcp.open.is_empty() {
            services = read_services(&self.findings.tcp_detections, false);
        }
        let ghost first = services.deep_view();
        if !self.udp.open.is_empty() {
            let mut more = read_services(&self.findings.udp_detections, true);
            let ghost second = more.deep_view();
            services.append(&mut more);
            assert(services.deep_view() =~= first + second);
        }
        let ghost unsorted = services@;
        let sorted = sorting::sort_by_port(services);
        proof {
            let g = |p: Port| p.deep_view();
            sorting::theorem_sorted_map(unsorted, g);
            assert(services.deep_view() =~= unsorted.map_values(g));
        }
        sorted
    }

    fn scan(&self) -> (r: RunStep)
        requires
            self.wf(),
        ensures
            r.deep_view() == scan_step(self.config.deep_view(), self.findings.deep_view()),
    {
        let scans_tcp = self.config.scan_mode != ScanMode::Udp;
        let scans_udp = self.config.scan_mode != ScanMode::Tcp;
        if scans_tcp && self.findings.tcp_probes.is_none() {
            let kind = if scans_udp {
                " TCP"
            } else {
                ""
            };
            return showing(
                announce(self.config, kind),
                Action::ScanTcp { ports: get_port_list(self.config.port_limit) },
            );
        }
        if scans_udp && self.findings.udp_probes.is_none() {
            let first = if scans_tcp {
                show_results(self.config, &self.tcp, false)
            } else {
                no_lines()
            };
            return showing(
                chain(first, announce(self.config, " UDP")),
                Action::ScanUdp { ports: get_port_list(self.config.port_limit) },
            );
        }
        self.detection()
    }

    fn last_scan(&self) -> (r: Vec<Line>)
        requires
            self.wf(),
        ensures
            r.deep_view() == last_scan_lines(self.config.deep_view(), self.findings.deep_view()),
    {
        if self.config.scan_mode != ScanMode::Tcp {
            show_results(self.config, &self.udp, true)
        } else {
            show_results(self.config, &self.tcp, false)
        }
    }

    fn detection(&self) -> (r: RunStep)
        requires
            self.wf(),
        ensures
            r.deep_view() == detection_step(self.config.deep_view(), self.findings.deep_view()),
    {
        let tcp = !self.tcp.open.is_empty();
        let udp = !self.udp.open.is_empty();
        let timeout = Duration::from_secs(constants::NMAP_TIMEOUT_SECS);
        if !tcp && !udp {
            return showing(
                chain(self.last_scan(), warn_unless_json(self.config, "No open ports found")),
                Action::Stop,
            );
        }
        if tcp {
            match &self.findings.tcp_detections {
                None => {
                    return showing(
                        self.last_scan(),
                        Action::DetectServices {
                            ports: port_numbers(self.tcp.open.as_slice()),
                            is_udp: false,
                            timeout,
                        },
                    );
                },
                Some(Err(e)) => {
                    return quiet(Action::Fail(e.clone()));
                },
                Some(Ok(_)) => {},
            }
        }
        if udp {
            match &self.findings.udp_detections {
                None => {
                    return RunStep {
                        warnings: if tcp {
                            read_warnings(&self.findings.tcp_detections)
                        } else {
                            no_lines()
                        },
                        lines: if tcp {
                            no_lines()
                        } else {
                            self.last_scan()
                        },
                        action: Action::DetectServices {
                            ports: port_numbers(self.udp.open.as_slice()),
                            is_udp: true,
                            timeout,
                        },
                    };
                },
                Some(Err(e)) => {
                    return quiet(Action::Fail(e.clone()));
                },
                Some(Ok(_)) => {},
            }
        }
        self.os()
    }

    fn os(&self) -> (r: RunStep)
        requires
            self.wf(),
        ensures
            r.deep_view() == os_step(self.config.deep_view(), self.findings.deep_view()),
    {
        let services = self.services();
        let warnings = if !self.udp.open.is_empty() {
            read_warnings(&self.findings.udp_detections)
        } else {
            read_warnings(&self.findings.tcp_detections)
        };
        if services.is_empty() {
            return RunStep {
                warnings,
                lines: warn_unless_json(self.config, "No services detected"),
                action: Action::Stop,
            };
        }
        match &self.findings.os {
            None => {
                let lines = if self.config.json_mode {
                    no_lines()
                } else {
                    service_report(services.as_slice())
                };
                let timeout = Duration::from_secs(constants::NMAP_TIMEOUT_SECS);
                RunStep { warnings, lines, action: Action::DetectOs { services, timeout } }
            },
            Some(os) => self.scripts(os),
        }
    }

    fn scripts(&self, os: &OsFinding) -> (r: RunStep)
        requires
            self.wf(),
        ensures
            r.deep_view() == script_step(
                self.config.deep_view(),
                self.findings.deep_view(),
                os.deep_view(),
            ),
    {
        let lines = if self.config.json_mode {
            no_lines()
        } else {
            os_report(&os.os, os.shown_percent)
        };
        match (&self.config.nse_script, &self.findings.scripts) {
            (None, _) => self.exploits(os, no_lines(), lines),
            (Some(script), None) => {
                let mut ports = port_numbers(self.tcp.open.as_slice());
                let mut more = port_numbers(self.udp.open.as_slice());
                ports.append(&mut more);
                let timeout = Duration::from_secs(constants::NMAP_TIMEOUT_SECS * 2);
                showing(lines, Action::RunScripts { script: script.clone(), ports, timeout })
            },
            (Some(_), Some(run)) => {
                let (results, warnings) = run_nse_scripts(run);
                let lines = if self.config.json_mode {
                    no_lines()
                } else {
                    nse_report(results)
                };
                self.exploits(os, warnings, lines)
            },
        }
    }

    fn exploits(&self, os: &OsFinding, warnings: Vec<Line>, lines: Vec<Line>) -> (r: RunStep)
        requires
            self.wf(),
        ensures
            r.deep_view() == exploit_step(
                self.config.deep_view(),
                self.findings.deep_view(),
                os.deep_view(),
                warnings.deep_view(),
                lines.deep_view(),
            ),
    {
        let services = self.services();
        match &self.findings.exploits {
            None => RunStep { warnings, lines, action: Action::SearchExploits { services } },
            Some(Err(e)) => quiet(Action::Fail(e.clone())),
            Some(Ok(_)) => {
                if !self.config.json_mode {
                    return quiet(Action::ShowExploits { services });
                }
                match &self.findings.json {
                    None => {
                        let os = match &os.os {
                            Some(os) => Some(os.clone()),
                            None => None,
                        };
                        quiet(Action::Serialize { services, os })
                    },
                    Some(Ok(text)) => {
                        let line = vec![plain(text.as_str())];
                        assert(line.deep_view() =~= seq![SpanView::plain(text@)]);
                        showing(one_line(line), Action::Stop)
                    },
                    Some(Err(e)) => quiet(
                        Action::Fail(
                            OxideScannerError::parse(
                                cat("Failed to serialize JSON: ", e.as_str()).as_str(),
                            ),
                        ),
                    ),
                }
            },
        }
    }
}

/// What is done next in a run, and what is shown before it.
pub fn next_step(config: &Config, findings: &Findings) -> (r: RunStep)
    ensures
        r.deep_view() == run_step(config.deep_view(), findings.deep_view()),
{
    let (searchsploit, nmap) = match findings.tools {
        None => {
            return quiet(Action::CheckTools);
        },
        Some(found) => found,
    };
    match check_dependencies(searchsploit, nmap) {
        Err(e) => {
            return quiet(Action::Fail(e));
        },
        Ok(_) => {},
    }
    let name = match target_lookup_name(config.target.as_str()) {
        Err(e) => {
            return quiet(Action::Fail(e));
        },
        Ok(name) => name,
    };
    match &findings.addresses {
        None => {
            return quiet(Action::ResolveTarget { name });
        },
        Some(Err(e)) => {
            return quiet(Action::Fail(e.clone()));
        },
        Some(Ok(_)) => {},
    }
    let tcp = read_results(config.scan_mode != ScanMode::Udp, &findings.tcp_probes, false);
    let udp = read_results(config.scan_mode != ScanMode::Tcp, &findings.udp_probes, true);
    let run = Run { config, findings, tcp, udp };
    run.scan()
}

} // verus!
