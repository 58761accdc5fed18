//! Promises about the detection of services on several ports.

use crate::decimal;
use crate::detection::{
    detected, detection_warnings, ends, found, recognised_on, DetectionView, ScriptRunView,
};
use crate::error::ErrorView;
use crate::external::nmap::ServiceView;
use crate::external::nmap_nse::NseView;
use crate::laws::documents::lemma_flat_map_concat;
use crate::report::{LineView, SpanView, Style};
use crate::scanner::PortView;
use crate::sorting;
use vstd::prelude::*;

verus! {

/// A port with what is known of its service.
pub open spec fn port_with(service: ServiceView, is_udp: bool) -> PortView {
    PortView {
        port: service.port,
        protocol: if is_udp {
            "udp"@
        } else {
            "tcp"@
        },
        service: service.service,
        product: service.product,
        version: service.version,
    }
}

/// Mapping and keeping what belongs to one port can change places.
proof fn lemma_filter_map<A, B>(
    s: Seq<A>,
    f: spec_fn(A) -> B,
    p: spec_fn(B) -> bool,
    q: spec_fn(A) -> bool,
)
    requires
        forall|a: A| p(#[trigger] f(a)) == q(a),
    ensures
        s.map_values(f).filter(p) == s.filter(q).map_values(f),
    decreases s.len(),
{
    reveal(Seq::filter);
    if s.len() > 0 {
        let init = s.drop_last();
        lemma_filter_map(init, f, p, q);
        assert(s.map_values(f).drop_last() =~= init.map_values(f));
        assert(s.map_values(f).last() == f(s.last()));
    }
    assert(s.map_values(f).filter(p) =~= s.filter(q).map_values(f));
}

proof fn lemma_detected(detections: Seq<(u16, DetectionView)>, is_udp: bool, port: u16)
    ensures
        detected(detections, is_udp).filter(|p: PortView| p.port == port) == ends(
            detections,
        ).flat_map(found()).filter(|s: ServiceView| s.port == port).map_values(
            |s: ServiceView| port_with(s, is_udp),
        ),
        detected(detections, is_udp).len() == ends(detections).flat_map(found()).len(),
{
    let services = ends(detections).flat_map(found());
    let f = recognised_on(is_udp);
    let of_service = |s: ServiceView| s.port == port;
    sorting::theorem_sorted(services, port);
    assert(sorting::on_port::<ServiceView>(port) =~= of_service);
    lemma_filter_map(sorting::sorted(services), f, |p: PortView| p.port == port, of_service);
    assert(f =~= (|s: ServiceView| port_with(s, is_udp)));
}

/// The services that one detection found become ports of the protocol, with all
/// that is known of them.
pub proof fn theorem_found(
    port: u16,
    services: Seq<ServiceView>,
    is_udp: bool,
    on: u16,
)
    ensures
        detected(seq![(port, DetectionView::Found(services))], is_udp).len() == services.len(),
        detected(seq![(port, DetectionView::Found(services))], is_udp).filter(
            |p: PortView| p.port == on,
        ) == services.filter(|s: ServiceView| s.port == on).map_values(
            |s: ServiceView| port_with(s, is_udp),
        ),
{
    let detections = seq![(port, DetectionView::Found(services))];
    lemma_detected(detections, is_udp, on);
    let e = ends(detections);
    assert(e =~= seq![DetectionView::Found(services)]);
    e.lemma_flat_map_singleton(found());
}

/// A detection that failed finds nothing.
pub proof fn theorem_found_nothing(port: u16, e: ErrorView, reason: Seq<char>, is_udp: bool)
    ensures
        detected(seq![(port, DetectionView::Failed(e))], is_udp).len() == 0,
        detected(seq![(port, DetectionView::Panicked(reason))], is_udp).len() == 0,
        detected(Seq::empty(), is_udp).len() == 0,
{
    let a = seq![(port, DetectionView::Failed(e))];
    let b = seq![(port, DetectionView::Panicked(reason))];
    lemma_detected(a, is_udp, 0);
    lemma_detected(b, is_udp, 0);
    lemma_detected(Seq::empty(), is_udp, 0);
    assert(ends(a) =~= seq![DetectionView::Failed(e)]);
    assert(ends(b) =~= seq![DetectionView::Panicked(reason)]);
    ends(a).lemma_flat_map_singleton(found());
    ends(b).lemma_flat_map_singleton(found());
    assert(ends(Seq::empty()) =~= Seq::empty());
    assert(ends(Seq::empty()).flat_map(found()) =~= Seq::empty());
}

/// What further detections find comes on top: on every port the services found
/// first come first, nothing is lost, and the ports are in order.
pub proof fn theorem_found_together(
    a: Seq<(u16, DetectionView)>,
    b: Seq<(u16, DetectionView)>,
    is_udp: bool,
    on: u16,
)
    ensures
        detected(a + b, is_udp).len() == detected(a, is_udp).len() + detected(b, is_udp).len(),
        detected(a + b, is_udp).filter(|p: PortView| p.port == on) == detected(a, is_udp).filter(
            |p: PortView| p.port == on,
        ) + detected(b, is_udp).filter(|p: PortView| p.port == on),
        forall|i: int, j: int|
            0 <= i <= j < detected(a, is_udp).len() ==> (#[trigger] detected(a, is_udp)[i]).port
                <= (#[trigger] detected(a, is_udp)[j]).port,
{
    let f = |s: ServiceView| port_with(s, is_udp);
    let of_service = |s: ServiceView| s.port == on;
    let x = ends(a).flat_map(found());
    let y = ends(b).flat_map(found());
    lemma_detected(a, is_udp, on);
    lemma_detected(b, is_udp, on);
    lemma_detected(a + b, is_udp, on);
    assert(ends(a + b) =~= ends(a) + ends(b));
    lemma_flat_map_concat(ends(a), ends(b), found());
    Seq::filter_distributes_over_add(x, y, of_service);
    assert((x.filter(of_service) + y.filter(of_service)).map_values(f) =~= x.filter(
        of_service,
    ).map_values(f) + y.filter(of_service).map_values(f));
    sorting::theorem_sorted(x, on);
    let sorted = sorting::sorted(x);
    assert forall|i: int, j: int| 0 <= i <= j < detected(a, is_udp).len() implies (
    #[trigger] detected(a, is_udp)[i]).port <= (#[trigger] detected(a, is_udp)[j]).port by {
        assert(sorted[i].port == sorting::HasPort::port_key(sorted[i]));
        assert(sorted[j].port == sorting::HasPort::port_key(sorted[j]));
    }
}

/// Each detection that did not end well is warned about once, in order.
pub proof fn theorem_warnings(
    a: Seq<(u16, DetectionView)>,
    b: Seq<(u16, DetectionView)>,
    port: u16,
    services: Seq<ServiceView>,
    e: ErrorView,
    reason: Seq<char>,
)
    ensures
        detection_warnings(a + b) == detection_warnings(a) + detection_warnings(b),
        detection_warnings(seq![(port, DetectionView::Found(services))]).len() == 0,
        detection_warnings(seq![(port, DetectionView::Failed(e))]) == seq![
            warned(
                " Service detection on port "@ + decimal::digits_of(port as nat) + " failed: "@
                    + e.described(),
            ),
        ],
        detection_warnings(seq![(port, DetectionView::Panicked(reason))]) == seq![
            warned(
                " Service detection task for port "@ + decimal::digits_of(port as nat)
                    + " panicked: "@ + reason,
            ),
        ],
{
    let f = crate::detection::detection_warning();
    lemma_filter_map_concat(a, b, f);
    Seq::lemma_filter_map_singleton((port, DetectionView::Found(services)), f);
    Seq::lemma_filter_map_singleton((port, DetectionView::Failed(e)), f);
    Seq::lemma_filter_map_singleton((port, DetectionView::Panicked(reason)), f);
}

/// The line of a warning, indented.
pub open spec fn warned(message: Seq<char>) -> LineView {
    seq![
        SpanView { text: "  "@, style: Style::Plain },
        SpanView { text: "WARNING"@, style: Style::Yellow },
        SpanView { text: message, style: Style::Plain },
    ]
}

pub proof fn lemma_filter_map_concat<A, B>(x: Seq<A>, y: Seq<A>, f: spec_fn(A) -> Option<B>)
    ensures
        (x + y).filter_map(f) == x.filter_map(f) + y.filter_map(f),
    decreases y.len(),
{
    if y.len() == 0 {
        assert(x + y =~= x);
        assert(y.filter_map(f) =~= Seq::empty());
    } else {
        lemma_filter_map_concat(x, y.drop_last(), f);
        assert((x + y).drop_last() =~= x + y.drop_last());
        assert((x + y).last() == y.last());
        assert((x + y).filter_map(f) =~= x.filter_map(f) + y.filter_map(f));
    }
}

/// What scripts report is handed on as it is; a run that failed reports nothing
/// and is warned about once.
pub proof fn theorem_script_runs(results: Seq<NseView>, e: ErrorView)
    ensures
        ScriptRunView::Done(results).results() == results,
        ScriptRunView::Done(results).warnings().len() == 0,
        ScriptRunView::NoRunner(e).results().len() == 0,
        ScriptRunView::Failed(e).results().len() == 0,
        ScriptRunView::NoRunner(e).warnings() == seq![
            seq![
                SpanView { text: "WARNING"@, style: Style::Yellow },
                SpanView {
                    text: " "@ + ("NSE runner init failed: "@ + e.described()),
                    style: Style::Plain,
                },
            ],
        ],
        ScriptRunView::Failed(e).warnings() == seq![
            seq![
                SpanView { text: "WARNING"@, style: Style::Yellow },
                SpanView {
                    text: " "@ + ("NSE execution failed: "@ + e.described()),
                    style: Style::Plain,
                },
            ],
        ],
{
}

} // verus!
