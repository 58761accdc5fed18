//! Service and operating system detection with nmap.

use crate::constants;
use crate::decimal;
use crate::error::{outcome, ErrorView, Outcome, OxideScannerError};
use crate::external::{tool, which_view, BaseTool, CommandOutput, OutputView, ToolView};
use crate::sorting::{self, HasPort, PortNumber};
use crate::text::{self, cat};
use crate::validation::{
    checked_port_list, checked_target, is_port, validate_port_list, validate_target,
};
use crate::xml::{self, DocumentView, XmlDocument};
use vstd::prelude::*;

verus! {

/// A service that nmap recognised.
#[derive(Debug, Clone)]
pub struct NmapService {
    pub port: u16,
    pub service: String,
    pub product: String,
    pub version: String,
}

/// A service by the characters of its texts.
#[verifier::ext_equal]
pub struct ServiceView {
    pub port: u16,
    pub service: Seq<char>,
    pub product: Seq<char>,
    pub version: Seq<char>,
}

impl DeepView for NmapService {
    type V = ServiceView;

    open spec fn deep_view(&self) -> ServiceView {
        ServiceView {
            port: self.port,
            service: self.service@,
            product: self.product@,
            version: self.version@,
        }
    }
}

impl HasPort for NmapService {
    open spec fn port_key(self) -> u16 {
        self.port
    }
}

impl HasPort for ServiceView {
    open spec fn port_key(self) -> u16 {
        self.port
    }
}

impl PortNumber for NmapService {
    fn port_number(&self) -> (r: u16) {
        self.port
    }
}

/// An operating system that nmap recognised.
#[derive(Debug, Clone)]
pub struct NmapOsResult {
    pub name: String,
    pub accuracy: u8,
    pub osclass: Option<String>,
}

/// An operating system by the characters of its texts.
#[verifier::ext_equal]
pub struct NmapOsView {
    pub name: Seq<char>,
    pub accuracy: u8,
    pub osclass: Option<Seq<char>>,
}

impl DeepView for NmapOsResult {
    type V = NmapOsView;

    open spec fn deep_view(&self) -> NmapOsView {
        NmapOsView {
            name: self.name@,
            accuracy: self.accuracy,
            osclass: self.osclass.deep_view(),
        }
    }
}

/// Runs nmap and reads what it reports.
#[derive(Debug, Clone)]
pub struct NmapDetector {
    pub base_tool: BaseTool,
}

impl DeepView for NmapDetector {
    type V = ToolView;

    open spec fn deep_view(&self) -> ToolView {
        self.base_tool.deep_view()
    }
}

/// The ports in decimal notation.
pub open spec fn port_texts(ports: Seq<u16>) -> Seq<Seq<char>> {
    ports.map_values(|p: u16| decimal::digits_of(p as nat))
}

/// The ports with commas between them.
pub open spec fn port_list(ports: Seq<u16>) -> Seq<char> {
    text::joined(port_texts(ports), ","@)
}

/// The port list for nmap; there has to be a port.
pub open spec fn formatted_ports(ports: Seq<u16>) -> core::result::Result<Seq<char>, ErrorView> {
    if ports.len() == 0 {
        Err(ErrorView::Validation("Port list cannot be empty"@))
    } else {
        Ok(port_list(ports))
    }
}

/// The arguments for a service detection.
pub open spec fn nmap_args(target: Seq<char>, ports: Seq<char>, is_udp: bool) -> Seq<Seq<char>> {
    seq![
        if is_udp {
            "-sUV"@
        } else {
            "-sV"@
        },
        "--version-intensity"@,
        decimal::digits_of(constants::NMAP_VERSION_INTENSITY as nat),
        "-p"@,
        ports,
        "-oX"@,
        "-"@,
        "--open"@,
        "--disable-arp-ping"@,
        "-Pn"@,
        target,
    ]
}

/// The arguments for a detection, once target and ports are checked.
pub open spec fn detection_args(
    target: Seq<char>,
    ports: Seq<u16>,
    is_udp: bool,
) -> core::result::Result<Seq<Seq<char>>, ErrorView> {
    match (checked_target(target), formatted_ports(ports)) {
        (Err(e), _) => Err(e),
        (Ok(_), Err(e)) => Err(e),
        (Ok(target), Ok(list)) => match checked_port_list(list) {
            Err(e) => Err(e),
            Ok(list) => Ok(nmap_args(target, list, is_udp)),
        },
    }
}

/// A line that declares the document type.
pub open spec fn is_doctype(line: Seq<char>) -> bool {
    "<!DOCTYPE"@.is_prefix_of(text::trimmed(line))
}

/// A line that is kept.
pub open spec fn kept() -> spec_fn(Seq<char>) -> bool {
    |line: Seq<char>| !is_doctype(line)
}

/// A report without the lines that declare the document type.
pub open spec fn cleaned(report: Seq<char>) -> Seq<char> {
    text::joined(text::lines_of(report).filter(kept()), "\n"@)
}

/// The elements of the ports in a report, over all hosts.
pub open spec fn port_elements(doc: DocumentView) -> Seq<usize> {
    doc.all_children_named(
        doc.all_children_named(doc.children_named(doc.root, "host"@), "ports"@),
        "port"@,
    )
}

/// The value of an attribute, or a default.
pub open spec fn attribute_or(
    doc: DocumentView,
    node: usize,
    name: Seq<char>,
    default: Seq<char>,
) -> Seq<char> {
    match doc.attribute(node, name) {
        Some(value) => value,
        None => default,
    }
}

/// The port that an element is about, if it says so.
pub open spec fn port_id(doc: DocumentView, node: usize) -> Option<nat> {
    match doc.attribute(node, "portid"@) {
        Some(id) => decimal::unsigned_up_to(id, u16::MAX as nat),
        None => None,
    }
}

/// The service that a port element describes in its first service element; an
/// element without a port from 1 on describes none.
pub open spec fn service_of(doc: DocumentView, node: usize) -> Option<ServiceView> {
    let elements = doc.children_named(node, "service"@);
    match port_id(doc, node) {
        Some(port) => if port == 0 {
            None
        } else if elements.len() == 0 {
            Some(
                ServiceView {
                    port: port as u16,
                    service: "unknown"@,
                    product: Seq::empty(),
                    version: Seq::empty(),
                },
            )
        } else {
            Some(
                ServiceView {
                    port: port as u16,
                    service: attribute_or(doc, elements[0], "name"@, "unknown"@),
                    product: attribute_or(doc, elements[0], "product"@, Seq::empty()),
                    version: attribute_or(doc, elements[0], "version"@, Seq::empty()),
                },
            )
        },
        None => None,
    }
}

/// The reading of a port element.
pub open spec fn service_reader(doc: DocumentView) -> spec_fn(usize) -> Option<ServiceView> {
    |node: usize| service_of(doc, node)
}

/// The services that a report names, sorted by port.
pub open spec fn services_in(doc: DocumentView) -> core::result::Result<
    Seq<ServiceView>,
    ErrorView,
> {
    if doc.nodes[doc.root as int].name != "nmaprun"@ {
        Err(ErrorView::Parse("Invalid nmap XML format"@))
    } else {
        Ok(sorting::sorted(port_elements(doc).filter_map(service_reader(doc))))
    }
}

/// The services that the text of a report names.
pub open spec fn services_in_text(xml: Seq<char>) -> core::result::Result<
    Seq<ServiceView>,
    ErrorView,
> {
    match xml::parsed(xml) {
        Ok(doc) => services_in(doc),
        Err(e) => Err(ErrorView::Parse("Failed to parse nmap XML: "@ + e)),
    }
}

/// The services in what nmap left behind.
pub open spec fn services_in_output(output: OutputView) -> core::result::Result<
    Seq<ServiceView>,
    ErrorView,
> {
    if !output.success {
        Err(
            ErrorView::ExternalTool {
                tool: "nmap"@,
                message: "Command failed: "@ + text::utf8_lossy(output.stderr),
            },
        )
    } else {
        services_in_text(cleaned(text::utf8_lossy(output.stdout)))
    }
}

/// The elements of the operating systems in a report, over all hosts.
pub open spec fn os_elements(doc: DocumentView) -> Seq<usize> {
    doc.all_children_named(doc.children_named(doc.root, "host"@), "osmatch"@)
}

/// The accuracy that an operating system element states.
pub open spec fn accuracy_of(doc: DocumentView, node: usize) -> Option<nat> {
    match doc.attribute(node, "accuracy"@) {
        Some(accuracy) => decimal::unsigned_up_to(accuracy, u8::MAX as nat),
        None => None,
    }
}

/// The class of an operating system element: vendor, family and generation of
/// its first class element, which has to name the first two.
pub open spec fn os_class(doc: DocumentView, node: usize) -> Option<Seq<char>> {
    let classes = doc.children_named(node, "osclass"@);
    if classes.len() == 0 {
        None
    } else {
        match (doc.attribute(classes[0], "vendor"@), doc.attribute(classes[0], "osfamily"@)) {
            (Some(vendor), Some(family)) => Some(
                text::trimmed(
                    vendor + " "@ + family + " "@ + attribute_or(
                        doc,
                        classes[0],
                        "osgen"@,
                        Seq::empty(),
                    ),
                ),
            ),
            _ => None,
        }
    }
}

/// The operating system of the first element, if it has a name and an accuracy.
pub open spec fn os_in(doc: DocumentView) -> Option<NmapOsView> {
    let elements = os_elements(doc);
    if elements.len() == 0 {
        None
    } else {
        match (doc.attribute(elements[0], "name"@), accuracy_of(doc, elements[0])) {
            (Some(name), Some(accuracy)) => Some(
                NmapOsView {
                    name,
                    accuracy: accuracy as u8,
                    osclass: os_class(doc, elements[0]),
                },
            ),
            _ => None,
        }
    }
}

/// The operating system that the text of a report names.
pub open spec fn os_in_text(xml: Seq<char>) -> Option<NmapOsView> {
    match xml::parsed(xml) {
        Ok(doc) => os_in(doc),
        Err(_) => None,
    }
}

/// The ports with commas between them.
pub fn write_port_list(ports: &[u16]) -> (r: String)
    ensures
        r@ == port_list(ports@),
{
    let mut texts: Vec<String> = Vec::new();
    let mut i: usize = 0;
    while i < ports.len()
        invariant
            i <= ports@.len(),
            texts.deep_view() == port_texts(ports@.take(i as int)),
        decreases ports@.len() - i,
    {
        let ghost before = texts.deep_view();
        let s = decimal::write(ports[i] as u64);
        texts.push(s);
        assert(texts.deep_view() =~= before.push(s@));
        i += 1;
    }
    assert(ports@.take(i as int) =~= ports@);
    text::join(&texts, ",")
}

/// A report without the lines that declare the document type.
pub fn clean_report(report: &str) -> (r: String)
    ensures
        r@ == cleaned(report@),
{
    let lines = text::lines(report);
    let ghost all = lines.deep_view();
    let mut keep: Vec<String> = Vec::new();
    let mut i: usize = 0;
    assert(all.take(0).filter(kept()) =~= Seq::empty()) by {
        reveal(Seq::filter);
    }
    while i < lines.len()
        invariant
            i <= lines@.len(),
            all == lines.deep_view(),
            keep.deep_view() == all.take(i as int).filter(kept()),
        decreases lines@.len() - i,
    {
        let line = lines[i].as_str();
        proof {
            assert(all.take(i + 1) =~= all.take(i as int).push(line@));
            all.take(i as int).lemma_filter_push(line@, kept());
        }
        let trimmed = text::trim(line);
        if !text::starts_with(trimmed.as_str(), "<!DOCTYPE") {
            keep.push(line.to_owned());
        }
        i += 1;
    }
    assert(all.take(i as int) =~= all);
    text::join(&keep, "\n")
}

/// The elements of the ports in a report, over all hosts.
pub fn find_port_elements(doc: &XmlDocument) -> (r: Vec<usize>)
    requires
        doc.deep_view().wf(),
    ensures
        r@ == port_elements(doc.deep_view()),
        doc.deep_view().holds(r@),
{
    let hosts = doc.children_named(doc.root, "host");
    let groups = doc.all_children_named(&hosts, "ports");
    doc.all_children_named(&groups, "port")
}

/// The port that an element is about, if it says so.
pub fn read_port_id(doc: &XmlDocument, node: usize) -> (r: Option<u16>)
    requires
        node < doc.deep_view().nodes.len(),
    ensures
        match r {
            Some(n) => port_id(doc.deep_view(), node) == Some(n as nat),
            None => port_id(doc.deep_view(), node) is None,
        },
{
    match doc.attribute(node, "portid") {
        Some(id) => match decimal::read(id.as_str(), u16::MAX as u64) {
            Some(n) => Some(n as u16),
            None => None,
        },
        None => None,
    }
}

/// The value of an attribute, or a default.
pub fn read_attribute_or(doc: &XmlDocument, node: usize, name: &str, default: &str) -> (r: String)
    requires
        node < doc.deep_view().nodes.len(),
    ensures
        r@ == attribute_or(doc.deep_view(), node, name@, default@),
{
    match doc.attribute(node, name) {
        Some(value) => value.clone(),
        None => default.to_owned(),
    }
}

impl NmapDetector {
    /// The detector, by the outcome of `which nmap`.
    pub fn new(which: &core::result::Result<CommandOutput, String>) -> (r: Outcome<Self>)
        ensures
            outcome(r) == tool("nmap"@, which_view(*which)),
    {
        match BaseTool::new("nmap", which) {
            Ok(base_tool) => Ok(NmapDetector { base_tool }),
            Err(e) => Err(e),
        }
    }

    /// The arguments for a detection of the services on some ports.
    pub fn detection_args(&self, target: &str, ports: &[u16], is_udp: bool) -> (r: Outcome<
        Vec<String>,
    >)
        ensures
            outcome(r) == detection_args(target@, ports@, is_udp),
    {
        let target = match validate_target(target) {
            Ok(target) => target,
            Err(e) => {
                return Err(e);
            },
        };
        let list = match self.format_port_list(ports) {
            Ok(list) => list,
            Err(e) => {
                return Err(e);
            },
        };
        let list = match validate_port_list(list.as_str()) {
            Ok(list) => list,
            Err(e) => {
                return Err(e);
            },
        };
        Ok(self.build_nmap_args(target.as_str(), list.as_str(), is_udp))
    }

    /// The port list for nmap.
    pub fn format_port_list(&self, ports: &[u16]) -> (r: Outcome<String>)
        ensures
            outcome(r) == formatted_ports(ports@),
    {
        if ports.is_empty() {
            return Err(OxideScannerError::validation("Port list cannot be empty"));
        }
        Ok(write_port_list(ports))
    }

    /// The arguments for a service detection.
    pub fn build_nmap_args(&self, target: &str, port_list: &str, is_udp: bool) -> (r: Vec<String>)
        ensures
            r.deep_view() == nmap_args(target@, port_list@, is_udp),
    {
        let mut args: Vec<String> = Vec::new();
        if is_udp {
            args.push("-sUV".to_owned());
        } else {
            args.push("-sV".to_owned());
        }
        args.push("--version-intensity".to_owned());
        args.push(decimal::write(constants::NMAP_VERSION_INTENSITY as u64));
        args.push("-p".to_owned());
        args.push(port_list.to_owned());
        args.push("-oX".to_owned());
        args.push("-".to_owned());
        args.push("--open".to_owned());
        args.push("--disable-arp-ping".to_owned());
        args.push("-Pn".to_owned());
        args.push(target.to_owned());
        args
    }

    /// The services in what nmap left behind.
    pub fn parse_nmap_output(&self, output: &CommandOutput) -> (r: Outcome<Vec<NmapService>>)
        ensures
            outcome(r) == services_in_output(output.deep_view()),
    {
        if !output.success {
            let stderr = text::decode_lossy(output.stderr.as_slice());
            let message = cat("Command failed: ", stderr.as_str());
            return Err(OxideScannerError::external_tool("nmap", message.as_str()));
        }
        let report = text::decode_lossy(output.stdout.as_slice());
        let xml = self.clean_xml_content(report.as_str());
        self.parse_nmap_xml(xml.as_str())
    }

    /// A report without the lines that declare the document type.
    pub fn clean_xml_content(&self, xml_content: &str) -> (r: String)
        ensures
            r@ == cleaned(xml_content@),
    {
        clean_report(xml_content)
    }

    /// The services that the text of a report names.
    pub fn parse_nmap_xml(&self, xml_content: &str) -> (r: Outcome<Vec<NmapService>>)
        ensures
            outcome(r) == services_in_text(xml_content@),
    {
        match xml::parse(xml_content) {
            Ok(doc) => self.services_from(&doc),
            Err(e) => Err(
                OxideScannerError::parse(cat("Failed to parse nmap XML: ", e.as_str()).as_str()),
            ),
        }
    }

    /// The services that a report names, sorted by port.
    pub fn services_from(&self, doc: &XmlDocument) -> (r: Outcome<Vec<NmapService>>)
        requires
            doc.deep_view().wf(),
        ensures
            outcome(r) == services_in(doc.deep_view()),
    {
        if !doc.is_named(doc.root, "nmaprun") {
            return Err(OxideScannerError::parse("Invalid nmap XML format"));
        }
        let ghost view = doc.deep_view();
        let ghost f = service_reader(view);
        let elements = find_port_elements(doc);
        let mut services: Vec<NmapService> = Vec::new();
        let mut i: usize = 0;
        while i < elements.len()
            invariant
                i <= elements@.len(),
                view == doc.deep_view(),
                view.wf(),
                view.holds(elements@),
                f == service_reader(view),
                services.deep_view() == elements@.take(i as int).filter_map(f),
            decreases elements@.len() - i,
        {
            proof {
                elements@.lemma_filter_map_take_succ(f, i as int);
            }
            match self.parse_port_element(doc, elements[i]) {
                Some(service) => {
                    services.push(service);
                },
                None => {},
            }
            i += 1;
        }
        assert(elements@.take(i as int) =~= elements@);
        let ghost unsorted = services@;
        let result = sorting::sort_by_port(services);
        proof {
            let g = |s: NmapService| s.deep_view();
            sorting::theorem_sorted_map(unsorted, g);
            assert(unsorted.map_values(g) =~= elements@.filter_map(f));
            assert(result.deep_view() =~= result@.map_values(g));
        }
        Ok(result)
    }

    /// The service that a port element describes.
    pub fn parse_port_element(&self, doc: &XmlDocument, node: usize) -> (r: Option<NmapService>)
        requires
            doc.deep_view().wf(),
            node < doc.deep_view().nodes.len(),
        ensures
            r.deep_view() == service_of(doc.deep_view(), node),
    {
        let port: u16 = match read_port_id(doc, node) {
            Some(port) => port,
            None => {
                return None;
            },
        };
        if port == 0 {
            return None;
        }
        let elements = doc.children_named(node, "service");
        if elements.len() == 0 {
            return Some(
                NmapService {
                    port,
                    service: "unknown".to_owned(),
                    product: String::new(),
                    version: String::new(),
                },
            );
        }
        let element: usize = elements[0];
        proof {
            reveal_strlit("");
        }
        Some(
            NmapService {
                port,
                service: read_attribute_or(doc, element, "name", "unknown"),
                product: read_attribute_or(doc, element, "product", ""),
                version: read_attribute_or(doc, element, "version", ""),
            },
        )
    }

    /// The operating system that the text of a report names.
    pub fn parse_os_xml(&self, xml_content: &str) -> (r: Option<NmapOsResult>)
        ensures
            r.deep_view() == os_in_text(cleaned(xml_content@)),
    {
        let xml = clean_report(xml_content);
        match xml::parse(xml.as_str()) {
            Ok(doc) => self.os_from(&doc),
            Err(_) => None,
        }
    }

    /// The operating system that a report names.
    pub fn os_from(&self, doc: &XmlDocument) -> (r: Option<NmapOsResult>)
        requires
            doc.deep_view().wf(),
        ensures
            r.deep_view() == os_in(doc.deep_view()),
    {
        let elements = find_os_elements(doc);
        if elements.len() == 0 {
            return None;
        }
        let element: usize = elements[0];
        match (doc.attribute(element, "name"), read_accuracy(doc, element)) {
            (Some(name), Some(accuracy)) => Some(
                NmapOsResult {
                    name: name.clone(),
                    accuracy,
                    osclass: self.read_os_class(doc, element),
                },
            ),
            _ => None,
        }
    }

    /// The class of an operating system element.
    fn read_os_class(&self, doc: &XmlDocument, node: usize) -> (r: Option<String>)
        requires
            doc.deep_view().wf(),
            node < doc.deep_view().nodes.len(),
        ensures
            r.deep_view() == os_class(doc.deep_view(), node),
    {
        let classes = doc.children_named(node, "osclass");
        if classes.len() == 0 {
            return None;
        }
        let class: usize = classes[0];
        match (doc.attribute(class, "vendor"), doc.attribute(class, "osfamily")) {
            (Some(vendor), Some(family)) => {
                proof {
                    reveal_strlit("");
                }
                let generation = read_attribute_or(doc, class, "osgen", "");
                let mut s = cat(vendor.as_str(), " ");
                s.append(family.as_str());
                s.append(" ");
                s.append(generation.as_str());
                Some(text::trim(s.as_str()))
            },
            _ => None,
        }
    }
}

/// The elements of the operating systems in a report, over all hosts.
pub fn find_os_elements(doc: &XmlDocument) -> (r: Vec<usize>)
    requires
        doc.deep_view().wf(),
    ensures
        r@ == os_elements(doc.deep_view()),
        doc.deep_view().holds(r@),
{
    let hosts = doc.children_named(doc.root, "host");
    doc.all_children_named(&hosts, "osmatch")
}

/// The accuracy that an operating system element states.
pub fn read_accuracy(doc: &XmlDocument, node: usize) -> (r: Option<u8>)
    requires
        node < doc.deep_view().nodes.len(),
    ensures
        match r {
            Some(n) => accuracy_of(doc.deep_view(), node) == Some(n as nat),
            None => accuracy_of(doc.deep_view(), node) is None,
        },
{
    match doc.attribute(node, "accuracy") {
        Some(accuracy) => match decimal::read(accuracy.as_str(), u8::MAX as u64) {
            Some(n) => Some(n as u8),
            None => None,
        },
        None => None,
    }
}

/// A port list that was formatted is accepted just where there are ports, and
/// none of them is 0; its entries are the ports in their order.
pub proof fn theorem_formatted_ports(ports: Seq<u16>)
    requires
        ports.len() > 0,
    ensures
        text::split_on(port_list(ports), ',') == port_texts(ports),
        checked_port_list(port_list(ports)) is Ok <==> !ports.contains(0),
{
    let texts = port_texts(ports);
    reveal_strlit(",");
    assert(","@ =~= seq![',']);
    assert forall|i: int| 0 <= i < texts.len() implies text::is_free_of(
        #[trigger] texts[i],
        ',',
    ) by {
        decimal::lemma_digits_of(ports[i] as nat);
    }
    text::theorem_split_joined(texts, ',');
    assert forall|i: int| 0 <= i < texts.len() implies is_port(#[trigger] texts[i]) == (ports[i]
        != 0) by {
        decimal::theorem_digits_read_back(ports[i] as nat, constants::ports::MAX as nat);
    }
    if ports.contains(0) {
        let i = choose|i: int| 0 <= i < ports.len() && ports[i] == 0;
        assert(!is_port(texts[i]));
    }
}

/// A detection can be run on every target that is accepted and every port from
/// 1 on.
pub proof fn theorem_detection_args(target: Seq<char>, port: u16, is_udp: bool)
    requires
        checked_target(target) is Ok,
        port >= constants::ports::MIN,
    ensures
        detection_args(target, seq![port], is_udp) == Ok::<_, ErrorView>(
            nmap_args(target, decimal::digits_of(port as nat), is_udp),
        ),
{
    let ports = seq![port];
    theorem_formatted_ports(ports);
}

/// No line of a cleaned report declares the document type.
pub proof fn theorem_cleaned(report: Seq<char>, i: int)
    requires
        0 <= i < text::lines_of(cleaned(report)).len(),
    ensures
        !is_doctype(text::lines_of(cleaned(report))[i]),
{
    let lines = text::lines_of(report);
    let parts = lines.filter(kept());
    text::theorem_lines(report);
    assert forall|k: int| 0 <= k < parts.len() implies text::is_free_of(#[trigger] parts[k], '\n')
        && !is_doctype(parts[k]) by {
        lines.lemma_filter_contains_rev(kept(), parts[k]);
        let j = choose|j: int| 0 <= j < lines.len() && lines[j] == parts[k];
        lines.lemma_filter_pred(kept(), k);
    }
    reveal_strlit("\n");
    assert("\n"@ =~= seq!['\n']);
    text::theorem_lines_joined(parts, i);
    let part = parts[i];
    if part.len() > 0 && part.last() == '\r' {
        text::theorem_trimmed_end(part.drop_last(), '\r');
        assert(part.drop_last().push('\r') =~= part);
    }
}

/// The services that a report names are in order, none is on port 0, and each
/// stands for a port element.
pub proof fn theorem_services(doc: DocumentView, i: int)
    requires
        services_in(doc) is Ok,
        0 <= i < services_in(doc)->Ok_0.len(),
    ensures
        sorting::ordered(services_in(doc)->Ok_0),
        services_in(doc)->Ok_0[i].port >= constants::ports::MIN,
        exists|node: usize| #[trigger]
            port_elements(doc).contains(node) && service_of(doc, node) == Some(
                services_in(doc)->Ok_0[i],
            ),
{
    broadcast use vstd::seq_lib::group_to_multiset_ensures;

    let found = port_elements(doc).filter_map(service_reader(doc));
    let services = sorting::sorted(found);
    sorting::theorem_sorted(found, 0);
    assert(services.to_multiset().count(services[i]) > 0);
    port_elements(doc).lemma_filter_map_contains(service_reader(doc), services[i]);
    let node = choose|node: usize| #[trigger]
        port_elements(doc).contains(node) && service_reader(doc)(node) == Some(services[i]);
}

} // verus!
