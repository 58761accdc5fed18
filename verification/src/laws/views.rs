//! Promises about the contents of values: nothing is left out of them, and
//! nothing is changed.

use crate::config::{Config, EnvVars};
use crate::detection::{Detection, DetectionView, OsResult, ScriptRun, ScriptRunView};
use crate::error::{outcome, ErrorView, Outcome, OxideScannerError};
use crate::external::nmap::{NmapOsResult, NmapService};
use crate::external::nmap_nse::NseResult;
use crate::external::{which_view, BaseTool, CommandOutput};
use crate::prompts::{
    replied, PortLimitStep, PortLimitStepView, Reply, ScriptChoice, ScriptChoiceView, ScriptStep,
    ScriptStepView,
};
use crate::rate_limit::RateLimitPolicy;
use crate::report::Span;
use crate::run::{Action, ActionView, Findings, RunStep};
use crate::scanner::{Port, ScanResults};
use crate::setup::{answered, Answers, ConfigStep, ConfigStepView};
use crate::xml::{XmlAttribute, XmlDocument, XmlNode};
use vstd::prelude::*;

verus! {

/// A port is known by all its fields.
pub proof fn theorem_port(p: Port, r: ScanResults, i: int)
    ensures
        p.deep_view().port == p.port,
        p.deep_view().protocol == p.protocol@,
        p.deep_view().service == p.service@,
        p.deep_view().product == p.product@,
        p.deep_view().version == p.version@,
        r.deep_view().open.len() == r.open@.len(),
        0 <= i < r.open@.len() ==> r.deep_view().open[i] == r.open@[i].deep_view(),
        r.deep_view().filtered == r.filtered@,
        r.deep_view().closed == r.closed,
{
}

/// A service, a system and a script result are known by all their fields.
pub proof fn theorem_findings_of_nmap(s: NmapService, o: NmapOsResult, n: NseResult, os: OsResult)
    ensures
        s.deep_view().port == s.port,
        s.deep_view().service == s.service@,
        s.deep_view().product == s.product@,
        s.deep_view().version == s.version@,
        o.deep_view().name == o.name@,
        o.deep_view().accuracy == o.accuracy,
        o.osclass is None <==> o.deep_view().osclass is None,
        o.osclass matches Some(c) ==> o.deep_view().osclass == Some(c@),
        n.deep_view().port == n.port,
        n.deep_view().script_id == n.script_id@,
        n.deep_view().output == n.output@,
        os.deep_view().name == os.name@,
        os.deep_view().distro == os.distro@,
        os.deep_view().confidence_percent == os.confidence_percent,
        os.deep_view().source == os.source@,
{
}

/// A detection and a script run are known by how they ended and what they
/// brought.
pub proof fn theorem_ends(d: Detection, run: ScriptRun, i: int)
    ensures
        d matches Detection::Found(s) ==> {
            &&& d.deep_view() matches DetectionView::Found(v) && v.len() == s@.len() && (0 <= i
                < s@.len() ==> v[i] == s@[i].deep_view())
        },
        d matches Detection::Failed(e) ==> d.deep_view() == DetectionView::Failed(e.deep_view()),
        d matches Detection::Panicked(e) ==> d.deep_view() == DetectionView::Panicked(e@),
        run matches ScriptRun::NoRunner(e) ==> run.deep_view() == ScriptRunView::NoRunner(
            e.deep_view(),
        ),
        run matches ScriptRun::Failed(e) ==> run.deep_view() == ScriptRunView::Failed(
            e.deep_view(),
        ),
        run matches ScriptRun::Done(s) ==> {
            &&& run.deep_view() matches ScriptRunView::Done(v) && v.len() == s@.len() && (0 <= i
                < s@.len() ==> v[i] == s@[i].deep_view())
        },
{
}

/// An error is known by its kind and its texts.
pub proof fn theorem_error(e: OxideScannerError)
    ensures
        e matches OxideScannerError::Config(m) ==> e.deep_view() == ErrorView::Config(m@),
        e matches OxideScannerError::ExternalTool { tool, message } ==> e.deep_view() == (
        ErrorView::ExternalTool { tool: tool@, message: message@ }),
        e matches OxideScannerError::Validation(m) ==> e.deep_view() == ErrorView::Validation(m@),
        e matches OxideScannerError::Parse(m) ==> e.deep_view() == ErrorView::Parse(m@),
        e matches OxideScannerError::Io(m) ==> e.deep_view() == ErrorView::Io(m@),
        e matches OxideScannerError::Timeout { duration_ms } ==> e.deep_view() == (
        ErrorView::Timeout { duration_ms }),
        e matches OxideScannerError::ServiceDetection(m) ==> e.deep_view()
            == ErrorView::ServiceDetection(m@),
        e matches OxideScannerError::TargetResolution(m) ==> e.deep_view()
            == ErrorView::TargetResolution(m@),
{
}

/// An outcome, an answer and a reply are known by what they hold.
pub proof fn theorem_outcome<T: DeepView>(
    v: T,
    e: OxideScannerError,
    reason: String,
)
    ensures
        outcome(Ok::<T, OxideScannerError>(v)) == Ok::<T::V, ErrorView>(v.deep_view()),
        outcome(Err::<T, OxideScannerError>(e)) == Err::<T::V, ErrorView>(e.deep_view()),
        answered(Some(Ok::<T, OxideScannerError>(v))) == Some(
            Ok::<T::V, ErrorView>(v.deep_view()),
        ),
        answered(Some(Err::<T, OxideScannerError>(e))) == Some(
            Err::<T::V, ErrorView>(e.deep_view()),
        ),
        answered(None::<Outcome<T>>) is None,
        replied(Some(Ok::<T, String>(v))) == Some(Ok::<T::V, Seq<char>>(v.deep_view())),
        replied(Some(Err::<T, String>(reason))) == Some(Err::<T::V, Seq<char>>(reason@)),
        replied(None::<Reply<T>>) is None,
{
}

/// What a program left behind is known byte by byte.
pub proof fn theorem_output(o: CommandOutput, e: String, t: BaseTool)
    ensures
        o.deep_view().success == o.success,
        o.deep_view().stdout == o.stdout@,
        o.deep_view().stderr == o.stderr@,
        which_view(Ok(o)) == Ok::<_, Seq<char>>(o.deep_view()),
        which_view(Err(e)) is Err && which_view(Err(e))->Err_0 == e@,
        t.deep_view().name == t.name@,
        t.deep_view().binary_path == t.binary_path@,
{
}

/// A document is known by its root, its nodes, their names, attributes and
/// children.
pub proof fn theorem_document(d: XmlDocument, n: XmlNode, a: XmlAttribute, i: int)
    ensures
        d.deep_view().root == d.root,
        d.deep_view().nodes.len() == d.nodes@.len(),
        0 <= i < d.nodes@.len() ==> d.deep_view().nodes[i] == d.nodes@[i].deep_view(),
        n.deep_view().name == n.name@,
        n.deep_view().children == n.children@,
        n.deep_view().attributes.len() == n.attributes@.len(),
        0 <= i < n.attributes@.len() ==> n.deep_view().attributes[i]
            == n.attributes@[i].deep_view(),
        a.deep_view().name == a.name@,
        a.deep_view().value == a.value@,
{
}

/// A configuration is known by all its settings.
pub proof fn theorem_config(c: Config, env: EnvVars, limit: RateLimitPolicy)
    ensures
        c.deep_view().target == c.target@,
        c.deep_view().json_mode == c.json_mode,
        c.deep_view().scan_mode == c.scan_mode,
        c.deep_view().port_limit == c.port_limit,
        c.deep_view().scan_timeout == c.scan_timeout.in_nanos(),
        c.deep_view().exploit_timeout == c.exploit_timeout.in_nanos(),
        c.deep_view().threads == c.threads,
        c.deep_view().shutdown_timeout == c.shutdown_timeout.in_nanos(),
        c.deep_view().enable_rate_limiting == c.enable_rate_limiting,
        c.deep_view().scanner_rate_limit == c.scanner_rate_limit.deep_view(),
        c.deep_view().external_tools_rate_limit == c.external_tools_rate_limit.deep_view(),
        c.deep_view().exploit_queries_rate_limit == c.exploit_queries_rate_limit.deep_view(),
        c.nse_script is None ==> c.deep_view().nse_script is None,
        c.nse_script matches Some(s) ==> c.deep_view().nse_script == Some(s@),
        env.deep_view().threads == env.threads.deep_view(),
        env.deep_view().shutdown_timeout == env.shutdown_timeout.deep_view(),
        env.deep_view().enable_rate_limit == env.enable_rate_limit.deep_view(),
        env.deep_view().scanner_rate_limit == env.scanner_rate_limit.deep_view(),
        env.deep_view().external_tools_rate_limit == env.external_tools_rate_limit.deep_view(),
        env.deep_view().exploit_queries_rate_limit == env.exploit_queries_rate_limit.deep_view(),
        limit.deep_view().max_operations == limit.max_operations,
        limit.deep_view().period == limit.period.in_nanos(),
        limit.deep_view().burst_capacity == limit.burst_capacity,
{
}

/// The answers of the user and the steps of the dialogues are known by what
/// they hold.
pub proof fn theorem_dialogues(
    a: Answers,
    c: ConfigStep,
    p: PortLimitStep,
    s: ScriptStep,
    choice: ScriptChoice,
)
    ensures
        a.deep_view().scan_mode == answered(a.scan_mode),
        a.deep_view().port_limit == answered(a.port_limit),
        a.deep_view().nse_script == answered(a.nse_script),
        c matches ConfigStep::Ask(q) ==> c.deep_view() == ConfigStepView::Ask(q),
        c matches ConfigStep::Done(r) ==> c.deep_view() == ConfigStepView::Done(outcome(r)),
        p is Select ==> p.deep_view() == PortLimitStepView::Select,
        p is Enter ==> p.deep_view() == PortLimitStepView::Enter,
        p matches PortLimitStep::Done(r) ==> p.deep_view() == PortLimitStepView::Done(outcome(r)),
        s is Confirm ==> s.deep_view() == ScriptStepView::Confirm,
        s is Select ==> s.deep_view() == ScriptStepView::Select,
        s is Enter ==> s.deep_view() == ScriptStepView::Enter,
        s matches ScriptStep::Done(r) ==> s.deep_view() == ScriptStepView::Done(outcome(r)),
        choice matches ScriptChoice::Category(n) ==> choice.deep_view()
            == ScriptChoiceView::Category(n@),
        choice is Entry ==> choice.deep_view() == ScriptChoiceView::Entry,
{
}

/// What has been found is known in full, and so is what is shown.
pub proof fn theorem_findings(f: Findings, step: RunStep, span: Span)
    ensures
        f.deep_view().tools == f.tools,
        f.deep_view().addresses == answered(f.addresses),
        f.tcp_probes is None ==> f.deep_view().tcp_probes is None,
        f.tcp_probes matches Some(v) ==> f.deep_view().tcp_probes == Some(v@),
        f.udp_probes is None ==> f.deep_view().udp_probes is None,
        f.udp_probes matches Some(v) ==> f.deep_view().udp_probes == Some(v@),
        f.deep_view().tcp_detections == answered(f.tcp_detections),
        f.deep_view().udp_detections == answered(f.udp_detections),
        f.os is None ==> f.deep_view().os is None,
        f.os matches Some(o) ==> f.deep_view().os is Some && f.deep_view().os->0.os
            == o.os.deep_view() && f.deep_view().os->0.shown_percent == o.shown_percent,
        f.scripts is None ==> f.deep_view().scripts is None,
        f.scripts matches Some(r) ==> f.deep_view().scripts == Some(r.deep_view()),
        f.deep_view().exploits == answered(f.exploits),
        f.json is None ==> f.deep_view().json is None,
        f.json matches Some(Ok(t)) ==> f.deep_view().json == Some(Ok::<Seq<char>, Seq<char>>(t@)),
        f.json matches Some(Err(t)) ==> f.deep_view().json == Some(
            Err::<Seq<char>, Seq<char>>(t@),
        ),
        step.deep_view().warnings == step.warnings.deep_view(),
        step.deep_view().lines == step.lines.deep_view(),
        step.deep_view().action == step.action.deep_view(),
        span.deep_view().text == span.text@,
        span.deep_view().style == span.style,
{
}

/// An action is known by what it is and what it is done with.
pub proof fn theorem_action(a: Action)
    ensures
        a is CheckTools ==> a.deep_view() == ActionView::CheckTools,
        a matches Action::ResolveTarget { name } ==> a.deep_view() == (ActionView::ResolveTarget {
            name: name@,
        }),
        a matches Action::ScanTcp { ports } ==> a.deep_view() == (ActionView::ScanTcp {
            ports: ports@,
        }),
        a matches Action::ScanUdp { ports } ==> a.deep_view() == (ActionView::ScanUdp {
            ports: ports@,
        }),
        a matches Action::DetectServices { ports, is_udp, timeout } ==> a.deep_view() == (
        ActionView::DetectServices { ports: ports@, is_udp, timeout: timeout.in_nanos() }),
        a matches Action::DetectOs { services, timeout } ==> a.deep_view() == (
        ActionView::DetectOs { services: services.deep_view(), timeout: timeout.in_nanos() }),
        a matches Action::RunScripts { script, ports, timeout } ==> a.deep_view() == (
        ActionView::RunScripts { script: script@, ports: ports@, timeout: timeout.in_nanos() }),
        a matches Action::SearchExploits { services } ==> a.deep_view() == (
        ActionView::SearchExploits { services: services.deep_view() }),
        a matches Action::Serialize { services, os } ==> a.deep_view() == (ActionView::Serialize {
            services: services.deep_view(),
            os: os.deep_view(),
        }),
        a matches Action::ShowExploits { services } ==> a.deep_view() == (
        ActionView::ShowExploits { services: services.deep_view() }),
        a is Stop ==> a.deep_view() == ActionView::Stop,
        a matches Action::Fail(e) ==> a.deep_view() == ActionView::Fail(e.deep_view()),
{
}

} // verus!
