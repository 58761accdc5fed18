//! Promises about the services that a report names.

use crate::decimal;
use crate::external::nmap::{port_elements, service_of, service_reader, services_in, ServiceView};
use crate::laws::documents::{
    has_attribute, is_child, is_first_child, lacks_attribute, lacks_child, theorem_attribute,
    theorem_first_child, theorem_port_elements,
};
use crate::sorting;
use crate::xml::DocumentView;
use vstd::prelude::*;

verus! {

/// The element names a port that can be scanned.
pub open spec fn names_port(doc: DocumentView, node: usize, port: u16) -> bool {
    exists|id: Seq<char>| #[trigger]
        has_attribute(doc, node, "portid"@, id) && decimal::unsigned(id) == Some(port as nat)
}

/// A port element with a port from 1 on gives a service on that port. Name,
/// product and version are those of the first service element, each for
/// itself, whatever else the element has or lacks.
pub proof fn theorem_service(doc: DocumentView, node: usize, port: u16, element: usize)
    requires
        names_port(doc, node, port),
        port >= 1,
        is_first_child(doc, node, "service"@, element),
    ensures
        service_of(doc, node) matches Some(s) && {
            &&& s.port == port
            &&& forall|v: Seq<char>| #[trigger]
                has_attribute(doc, element, "name"@, v) ==> s.service == v
            &&& lacks_attribute(doc, element, "name"@) ==> s.service == "unknown"@
            &&& forall|v: Seq<char>| #[trigger]
                has_attribute(doc, element, "product"@, v) ==> s.product == v
            &&& lacks_attribute(doc, element, "product"@) ==> s.product.len() == 0
            &&& forall|v: Seq<char>| #[trigger]
                has_attribute(doc, element, "version"@, v) ==> s.version == v
            &&& lacks_attribute(doc, element, "version"@) ==> s.version.len() == 0
        },
{
    theorem_attribute(doc, node, "portid"@);
    theorem_first_child(doc, node, "service"@);
    theorem_attribute(doc, element, "name"@);
    theorem_attribute(doc, element, "product"@);
    theorem_attribute(doc, element, "version"@);
}

/// A port element without a service element gives an unknown service.
pub proof fn theorem_unknown_service(doc: DocumentView, node: usize, port: u16)
    requires
        names_port(doc, node, port),
        port >= 1,
        lacks_child(doc, node, "service"@),
    ensures
        service_of(doc, node) matches Some(s) && s.port == port && s.service == "unknown"@
            && s.product.len() == 0 && s.version.len() == 0,
{
    theorem_attribute(doc, node, "portid"@);
    theorem_first_child(doc, node, "service"@);
}

/// An element gives a service only where it names a port from 1 to 65535.
pub proof fn theorem_service_needs_port(doc: DocumentView, node: usize)
    ensures
        service_of(doc, node) is Some <==> exists|port: u16|
            port >= 1 && #[trigger] names_port(doc, node, port),
        service_of(doc, node) matches Some(s) ==> names_port(doc, node, s.port),
{
    theorem_attribute(doc, node, "portid"@);
    if service_of(doc, node) is Some {
        let id = doc.attribute(node, "portid"@)->0;
        assert(has_attribute(doc, node, "portid"@, id));
        assert(names_port(doc, node, service_of(doc, node)->0.port));
    }
}

/// What a service element says of the product or the version makes no
/// difference to the name, and the other way round.
pub proof fn theorem_fields_stand_alone(
    a: DocumentView,
    node_a: usize,
    element_a: usize,
    b: DocumentView,
    node_b: usize,
    element_b: usize,
    port: u16,
    name: Seq<char>,
)
    requires
        port >= 1,
        names_port(a, node_a, port),
        names_port(b, node_b, port),
        is_first_child(a, node_a, "service"@, element_a),
        is_first_child(b, node_b, "service"@, element_b),
        has_attribute(a, element_a, "name"@, name),
        has_attribute(b, element_b, "name"@, name),
    ensures
        service_of(a, node_a) is Some,
        service_of(b, node_b) is Some,
        service_of(a, node_a)->0.service == service_of(b, node_b)->0.service,
        service_of(a, node_a)->0.port == service_of(b, node_b)->0.port,
{
    theorem_service(a, node_a, port, element_a);
    theorem_service(b, node_b, port, element_b);
}

/// A report has services just where its root element is that of a report.
pub proof fn theorem_report_root(doc: DocumentView)
    ensures
        services_in(doc) is Ok <==> doc.nodes[doc.root as int].name == "nmaprun"@,
        services_in(doc) is Err ==> services_in(doc)->Err_0 == crate::error::ErrorView::Parse(
            "Invalid nmap XML format"@,
        ),
{
}

/// Every port element under a port group of a host under the root gives its
/// service, and no service comes from anywhere else. The services on one port
/// are in the order of the document, and lower ports come first.
pub proof fn theorem_services_of_report(doc: DocumentView, port: u16)
    requires
        doc.nodes[doc.root as int].name == "nmaprun"@,
    ensures
        services_in(doc) matches Ok(services) && {
            &&& forall|i: int, j: int|
                0 <= i <= j < services.len() ==> (#[trigger] services[i]).port <= (
                #[trigger] services[j]).port
            &&& services.len() == port_elements(doc).filter(
                |n: usize| service_of(doc, n) is Some,
            ).len()
            &&& services.filter(|s: ServiceView| s.port == port) == port_elements(doc).filter(
                |n: usize| service_of(doc, n) matches Some(s) && s.port == port,
            ).map_values(|n: usize| service_of(doc, n)->0)
        },
{
    let elements = port_elements(doc);
    let found = elements.filter_map(service_reader(doc));
    sorting::theorem_sorted(found, port);
    lemma_services(doc, elements, port);
    assert(sorting::on_port::<ServiceView>(port) =~= (|s: ServiceView| s.port == port));
    let services = services_in(doc)->Ok_0;
    assert forall|i: int, j: int| 0 <= i <= j < services.len() implies (
    #[trigger] services[i]).port <= (#[trigger] services[j]).port by {
        assert(services[i].port == sorting::HasPort::port_key(services[i]));
        assert(services[j].port == sorting::HasPort::port_key(services[j]));
    }
}

proof fn lemma_services(doc: DocumentView, nodes: Seq<usize>, port: u16)
    ensures
        nodes.filter_map(service_reader(doc)).len() == nodes.filter(
            |n: usize| service_of(doc, n) is Some,
        ).len(),
        nodes.filter_map(service_reader(doc)).filter(|s: ServiceView| s.port == port)
            == nodes.filter(
            |n: usize| service_of(doc, n) matches Some(s) && s.port == port,
        ).map_values(|n: usize| service_of(doc, n)->0),
    decreases nodes.len(),
{
    reveal(Seq::filter);
    let here = |s: ServiceView| s.port == port;
    let any = |n: usize| service_of(doc, n) is Some;
    let at = |n: usize| service_of(doc, n) matches Some(s) && s.port == port;
    let read = |n: usize| service_of(doc, n)->0;
    let f = service_reader(doc);
    if nodes.len() > 0 {
        let init = nodes.drop_last();
        let last = nodes.last();
        lemma_services(doc, init, port);
        assert(init.push(last) =~= nodes);
        init.lemma_filter_push(last, any);
        init.lemma_filter_push(last, at);
        let before = init.filter_map(f);
        match f(last) {
            Some(s) => {
                assert(nodes.filter_map(f) =~= before.push(s));
                before.lemma_filter_push(s, here);
            },
            None => {
                assert(nodes.filter_map(f) =~= before);
            },
        }
        assert(nodes.filter_map(f).filter(here) =~= nodes.filter(at).map_values(read));
    } else {
        assert(nodes.filter_map(f).filter(here) =~= nodes.filter(at).map_values(read));
    }
}

/// The service of a port that stands where ports stand in a report is among the
/// services of the report.
pub proof fn theorem_no_service_is_lost(
    doc: DocumentView,
    host: usize,
    group: usize,
    node: usize,
    service: ServiceView,
)
    requires
        doc.nodes[doc.root as int].name == "nmaprun"@,
        is_child(doc, doc.root, "host"@, host),
        is_child(doc, host, "ports"@, group),
        is_child(doc, group, "port"@, node),
        service_of(doc, node) == Some(service),
    ensures
        services_in(doc) matches Ok(services) && services.contains(service),
{
    theorem_port_elements(doc, node);
    theorem_services_of_report(doc, service.port);
    let elements = port_elements(doc);
    let at = |n: usize| service_of(doc, n) matches Some(s) && s.port == service.port;
    let read = |n: usize| service_of(doc, n)->0;
    let k = choose|k: int| 0 <= k < elements.len() && elements[k] == node;
    elements.lemma_filter_contains(at, k);
    let kept = elements.filter(at);
    let m = choose|m: int| 0 <= m < kept.len() && kept[m] == node;
    assert(kept.map_values(read)[m] == service);
    let services = services_in(doc)->Ok_0;
    let here = |s: ServiceView| s.port == service.port;
    assert(services.filter(here)[m] == service);
    services.lemma_filter_contains_rev(here, service);
}

} // verus!
