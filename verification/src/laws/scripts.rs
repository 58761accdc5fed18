//! Promises about what scripts report.

use crate::decimal;
use crate::error::ErrorView;
use crate::external::nmap::port_elements;
use crate::external::nmap_nse::{nse_args, script_reader, scripts_in};
use crate::laws::documents::{
    count, has_attribute, lacks_attribute, lemma_filter_rank, lemma_flat_map_at,
    lemma_flat_map_len, size_of, theorem_attribute, total,
};
use crate::xml::DocumentView;
use vstd::prelude::*;

verus! {

/// How many script children a node has.
pub open spec fn script_count(doc: DocumentView) -> spec_fn(usize) -> nat {
    |node: usize|
        count(
            doc.nodes[node as int].children,
            |c: usize| doc.nodes[c as int].name == "script"@,
        )
}

/// A report has script results just where its root element is that of a report.
pub proof fn theorem_script_report_root(doc: DocumentView)
    ensures
        scripts_in(doc) is Ok <==> doc.nodes[doc.root as int].name == "nmaprun"@,
        scripts_in(doc) is Err ==> scripts_in(doc)->Err_0 == ErrorView::Parse(
            "Invalid nmap XML format"@,
        ),
{
}

/// Every script child of every port element gives one result, whatever other
/// children there are, and nothing else gives any.
pub proof fn theorem_script_count(doc: DocumentView)
    requires
        doc.nodes[doc.root as int].name == "nmaprun"@,
    ensures
        scripts_in(doc) matches Ok(results) && results.len() == total(
            port_elements(doc),
            script_count(doc),
        ),
{
    let f = script_reader(doc);
    lemma_flat_map_len(port_elements(doc), f);
    lemma_script_sizes(doc, port_elements(doc));
}

proof fn lemma_script_sizes(doc: DocumentView, nodes: Seq<usize>)
    ensures
        total(nodes, size_of(script_reader(doc))) == total(nodes, script_count(doc)),
    decreases nodes.len(),
{
    if nodes.len() > 0 {
        lemma_script_sizes(doc, nodes.drop_last());
        lemma_filter_rank(
            doc.nodes[nodes.last() as int].children,
            |c: usize| doc.nodes[c as int].name == "script"@,
        );
    }
}

/// The child `k` of the port element `j`, where it is a script, gives the
/// result behind those of the elements before and of the scripts before it in
/// the element. The result has the number of the port, or 0 where the element
/// names none, and the name and the output of the script, as far as it has
/// them.
pub proof fn theorem_script(doc: DocumentView, j: int, k: int)
    requires
        doc.nodes[doc.root as int].name == "nmaprun"@,
        0 <= j < port_elements(doc).len(),
        0 <= k < doc.nodes[port_elements(doc)[j] as int].children.len(),
        doc.nodes[doc.nodes[port_elements(doc)[j] as int].children[k] as int].name == "script"@,
    ensures
        ({
            let element = port_elements(doc)[j];
            let children = doc.nodes[element as int].children;
            let script = children[k];
            let at = total(port_elements(doc).take(j), script_count(doc)) + count(
                children.take(k),
                |c: usize| doc.nodes[c as int].name == "script"@,
            );
            scripts_in(doc) matches Ok(results) && {
                &&& at < results.len()
                &&& forall|id: Seq<char>| #[trigger]
                    has_attribute(doc, element, "portid"@, id) ==> results[at as int].port == (
                    match decimal::unsigned(id) {
                        Some(n) => if n <= 65535 {
                            n
                        } else {
                            0
                        },
                        None => 0,
                    })
                &&& lacks_attribute(doc, element, "portid"@) ==> results[at as int].port == 0
                &&& forall|v: Seq<char>| #[trigger]
                    has_attribute(doc, script, "id"@, v) ==> results[at as int].script_id == v
                &&& lacks_attribute(doc, script, "id"@) ==> results[at as int].script_id
                    == "unknown"@
                &&& forall|v: Seq<char>| #[trigger]
                    has_attribute(doc, script, "output"@, v) ==> results[at as int].output == v
                &&& lacks_attribute(doc, script, "output"@) ==> results[at as int].output.len()
                    == 0
            }
        }),
{
    let elements = port_elements(doc);
    let element = elements[j];
    let children = doc.nodes[element as int].children;
    let script = children[k];
    let named = |c: usize| doc.nodes[c as int].name == "script"@;
    let f = script_reader(doc);
    lemma_filter_rank(children, named);
    let rank = count(children.take(k), named) as int;
    assert(doc.children_named(element, "script"@)[rank] == script);
    lemma_flat_map_at(elements, f, j, rank);
    lemma_script_sizes(doc, elements.take(j));
    theorem_attribute(doc, element, "portid"@);
    theorem_attribute(doc, script, "id"@);
    theorem_attribute(doc, script, "output"@);
}

/// A script run names the scripts, the ports and the target, each in its place.
pub proof fn theorem_script_arguments(target: Seq<char>, ports: Seq<u16>, category: Seq<char>)
    ensures
        ({
            let args = nse_args(target, ports, category);
            &&& args.len() == 11
            &&& args[0] == "--script"@
            &&& args[1] == category
            &&& args[2] == "-sV"@
            &&& args[3] == "-p"@
            &&& args[4] == crate::external::nmap::port_list(ports)
            &&& args[5] == "-oX"@
            &&& args[6] == "-"@
            &&& args[7] == "--open"@
            &&& args[8] == "--disable-arp-ping"@
            &&& args[9] == "-Pn"@
            &&& args[10] == target
        }),
{
}

} // verus!
