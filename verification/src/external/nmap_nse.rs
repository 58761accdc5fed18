//! Script runs with nmap.

use crate::error::{outcome, ErrorView, Outcome, OxideScannerError};
use crate::external::nmap::{
    attribute_or, clean_report, cleaned, find_port_elements, port_elements, port_id, port_list,
    read_attribute_or, read_port_id, write_port_list,
};
use crate::external::{tool, which_view, BaseTool, CommandOutput, OutputView, ToolView};
use crate::text::{self, cat};
use crate::validation::{checked_target, validate_target};
use crate::xml::{self, DocumentView, XmlDocument};
use vstd::prelude::*;

verus! {

/// What a script found on a port.
#[derive(Debug, Clone)]
pub struct NseResult {
    pub port: u16,
    pub script_id: String,
    pub output: String,
}

/// The result of a script by the characters of its texts.
#[verifier::ext_equal]
pub struct NseView {
    pub port: u16,
    pub script_id: Seq<char>,
    pub output: Seq<char>,
}

impl DeepView for NseResult {
    type V = NseView;

    open spec fn deep_view(&self) -> NseView {
        NseView { port: self.port, script_id: self.script_id@, output: self.output@ }
    }
}

/// Runs nmap scripts and reads what they report.
#[derive(Debug, Clone)]
pub struct NseRunner {
    pub base_tool: BaseTool,
}

impl DeepView for NseRunner {
    type V = ToolView;

    open spec fn deep_view(&self) -> ToolView {
        self.base_tool.deep_view()
    }
}

/// The arguments for a script run.
pub open spec fn nse_args(target: Seq<char>, ports: Seq<u16>, category: Seq<char>) -> Seq<
    Seq<char>,
> {
    seq![
        "--script"@,
        category,
        "-sV"@,
        "-p"@,
        port_list(ports),
        "-oX"@,
        "-"@,
        "--open"@,
        "--disable-arp-ping"@,
        "-Pn"@,
        target,
    ]
}

/// The arguments for a script run, once the target is checked.
pub open spec fn script_args(
    target: Seq<char>,
    ports: Seq<u16>,
    category: Seq<char>,
) -> core::result::Result<Seq<Seq<char>>, ErrorView> {
    match checked_target(target) {
        Err(e) => Err(e),
        Ok(target) => Ok(nse_args(target, ports, category)),
    }
}

/// The port of a port element, or zero where it names none.
pub open spec fn script_port(doc: DocumentView, node: usize) -> u16 {
    match port_id(doc, node) {
        Some(port) => port as u16,
        None => 0,
    }
}

/// What a script element reports for a port.
pub open spec fn script_result(doc: DocumentView, port: u16, script: usize) -> NseView {
    NseView {
        port,
        script_id: attribute_or(doc, script, "id"@, "unknown"@),
        output: attribute_or(doc, script, "output"@, Seq::empty()),
    }
}

/// What the scripts report for a port element.
pub open spec fn scripts_of(doc: DocumentView, node: usize) -> Seq<NseView> {
    doc.children_named(node, "script"@).map_values(
        |script: usize| script_result(doc, script_port(doc, node), script),
    )
}

/// The reading of a port element.
pub open spec fn script_reader(doc: DocumentView) -> spec_fn(usize) -> Seq<NseView> {
    |node: usize| scripts_of(doc, node)
}

/// What the scripts report, in the order of the document.
pub open spec fn scripts_in(doc: DocumentView) -> core::result::Result<Seq<NseView>, ErrorView> {
    if doc.nodes[doc.root as int].name != "nmaprun"@ {
        Err(ErrorView::Parse("Invalid nmap XML format"@))
    } else {
        Ok(port_elements(doc).flat_map(script_reader(doc)))
    }
}

/// What the scripts report in the text of a report.
pub open spec fn scripts_in_text(xml: Seq<char>) -> core::result::Result<Seq<NseView>, ErrorView> {
    match xml::parsed(xml) {
        Ok(doc) => scripts_in(doc),
        Err(e) => Err(ErrorView::Parse("Failed to parse NSE XML: "@ + e)),
    }
}

/// What the scripts report in what nmap left behind.
pub open spec fn scripts_in_output(output: OutputView) -> core::result::Result<
    Seq<NseView>,
    ErrorView,
> {
    if !output.success {
        Err(
            ErrorView::ExternalTool {
                tool: "nmap_nse"@,
                message: "Command failed: "@ + text::utf8_lossy(output.stderr),
            },
        )
    } else {
        scripts_in_text(cleaned(text::utf8_lossy(output.stdout)))
    }
}

impl NseRunner {
    /// The runner, by the outcome of `which nmap`.
    pub fn new(which: &core::result::Result<CommandOutput, String>) -> (r: Outcome<Self>)
        ensures
            outcome(r) == tool("nmap"@, which_view(*which)),
    {
        match BaseTool::new("nmap", which) {
            Ok(base_tool) => Ok(NseRunner { base_tool }),
            Err(e) => Err(e),
        }
    }

    /// The arguments for a run of the scripts of a category on some ports.
    pub fn script_args(&self, target: &str, ports: &[u16], script_category: &str) -> (r: Outcome<
        Vec<String>,
    >)
        ensures
            outcome(r) == script_args(target@, ports@, script_category@),
    {
        let target = match validate_target(target) {
            Ok(target) => target,
            Err(e) => {
                return Err(e);
            },
        };
        let mut args: Vec<String> = Vec::new();
        args.push("--script".to_owned());
        args.push(script_category.to_owned());
        args.push("-sV".to_owned());
        args.push("-p".to_owned());
        args.push(write_port_list(ports));
        args.push("-oX".to_owned());
        args.push("-".to_owned());
        args.push("--open".to_owned());
        args.push("--disable-arp-ping".to_owned());
        args.push("-Pn".to_owned());
        args.push(target);
        assert(args.deep_view() =~= nse_args(target@, ports@, script_category@));
        Ok(args)
    }

    /// What the scripts report in what nmap left behind.
    pub fn parse_nse_output(&self, output: &CommandOutput) -> (r: Outcome<Vec<NseResult>>)
        ensures
            outcome(r) == scripts_in_output(output.deep_view()),
    {
        if !output.success {
            let stderr = text::decode_lossy(output.stderr.as_slice());
            let message = cat("Command failed: ", stderr.as_str());
            return Err(OxideScannerError::external_tool("nmap_nse", message.as_str()));
        }
        let report = text::decode_lossy(output.stdout.as_slice());
        let xml = clean_report(report.as_str());
        self.parse_nse_xml(xml.as_str())
    }

    /// What the scripts report in the text of a report.
    pub fn parse_nse_xml(&self, xml_content: &str) -> (r: Outcome<Vec<NseResult>>)
        ensures
            outcome(r) == scripts_in_text(xml_content@),
    {
        match xml::parse(xml_content) {
            Ok(doc) => self.scripts_from(&doc),
            Err(e) => Err(
                OxideScannerError::parse(cat("Failed to parse NSE XML: ", e.as_str()).as_str()),
            ),
        }
    }

    /// What the scripts report, in the order of the document.
    pub fn scripts_from(&self, doc: &XmlDocument) -> (r: Outcome<Vec<NseResult>>)
        requires
            doc.deep_view().wf(),
        ensures
            outcome(r) == scripts_in(doc.deep_view()),
    {
        if !doc.is_named(doc.root, "nmaprun") {
            return Err(OxideScannerError::parse("Invalid nmap XML format"));
        }
        let ghost view = doc.deep_view();
        let ghost f = script_reader(view);
        let elements = find_port_elements(doc);
        let mut results: Vec<NseResult> = Vec::new();
        let mut i: usize = 0;
        while i < elements.len()
            invariant
                i <= elements@.len(),
                view == doc.deep_view(),
                view.wf(),
                view.holds(elements@),
                f == script_reader(view),
                results.deep_view() == elements@.take(i as int).flat_map(f),
            decreases elements@.len() - i,
        {
            let mut found = self.read_scripts(doc, elements[i]);
            results.append(&mut found);
            proof {
                elements@.lemma_flat_map_take_append(f, i as int);
            }
            i += 1;
        }
        assert(elements@.take(i as int) =~= elements@);
        Ok(results)
    }

    /// What the scripts report for a port element.
    fn read_scripts(&self, doc: &XmlDocument, node: usize) -> (r: Vec<NseResult>)
        requires
            doc.deep_view().wf(),
            node < doc.deep_view().nodes.len(),
        ensures
            r.deep_view() == scripts_of(doc.deep_view(), node),
    {
        let ghost view = doc.deep_view();
        let port: u16 = match read_port_id(doc, node) {
            Some(port) => port,
            None => 0,
        };
        let scripts = doc.children_named(node, "script");
        let mut results: Vec<NseResult> = Vec::new();
        let mut i: usize = 0;
        proof {
            reveal_strlit("");
        }
        while i < scripts.len()
            invariant
                i <= scripts@.len(),
                view == doc.deep_view(),
                view.holds(scripts@),
                ""@ == Seq::<char>::empty(),
                results@.len() == i,
                forall|j: int|
                    0 <= j < i ==> (#[trigger] results@[j]).deep_view() == script_result(
                        view,
                        port,
                        scripts@[j],
                    ),
            decreases scripts@.len() - i,
        {
            let script: usize = scripts[i];
            results.push(
                NseResult {
                    port,
                    script_id: read_attribute_or(doc, script, "id", "unknown"),
                    output: read_attribute_or(doc, script, "output", ""),
                },
            );
            i += 1;
        }
        results
    }
}

} // verus!
