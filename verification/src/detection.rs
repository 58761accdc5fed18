//! What the detection of services and of the operating system comes to.

use crate::constants;
use crate::decimal;
use crate::error::{outcome, ErrorView, Outcome, OxideScannerError};
use crate::external::nmap::{
    accuracy_of, clean_report, cleaned, find_os_elements, os_elements, port_list, read_accuracy,
    write_port_list, NmapDetector, NmapService, ServiceView,
};
use crate::external::nmap_nse::{NseResult, NseView};
use crate::external::{tool, which_view, CommandOutput, OutputView};
use crate::report::{plain, styled, warning, warning_line, Line, LineView, SpanView, Style};
use crate::scanner::{Port, PortView};
use crate::sorting;
use crate::text::{self, cat};
use crate::xml::{self, DocumentView, XmlDocument};
use vstd::prelude::*;

verus! {

/// How the detection on one port ended.
#[derive(Debug)]
pub enum Detection {
    /// It found these services.
    Found(Vec<NmapService>),
    /// It failed.
    Failed(OxideScannerError),
    /// Its task did not end well, for the given reason.
    Panicked(String),
}

/// The end of a detection by its contents.
#[verifier::ext_equal]
pub enum DetectionView {
    Found(Seq<ServiceView>),
    Failed(ErrorView),
    Panicked(Seq<char>),
}

impl DeepView for Detection {
    type V = DetectionView;

    open spec fn deep_view(&self) -> DetectionView {
        match *self {
            Detection::Found(services) => DetectionView::Found(services.deep_view()),
            Detection::Failed(e) => DetectionView::Failed(e.deep_view()),
            Detection::Panicked(e) => DetectionView::Panicked(e@),
        }
    }
}

/// The services that a detection found.
pub open spec fn found() -> spec_fn(DetectionView) -> Seq<ServiceView> {
    |d: DetectionView|
        match d {
            DetectionView::Found(services) => services,
            _ => Seq::empty(),
        }
}

/// A port with a service that nmap recognised.
pub open spec fn recognised_on(is_udp: bool) -> spec_fn(ServiceView) -> PortView {
    |s: ServiceView| PortView::recognised(s, is_udp)
}

/// How the detections ended, without the ports.
pub open spec fn ends(detections: Seq<(u16, DetectionView)>) -> Seq<DetectionView> {
    detections.map_values(|d: (u16, DetectionView)| d.1)
}

/// All services that the detections found, as ports in order.
pub open spec fn detected(detections: Seq<(u16, DetectionView)>, is_udp: bool) -> Seq<PortView> {
    sorting::sorted(ends(detections).flat_map(found())).map_values(recognised_on(is_udp))
}

/// The line about a detection that did not end well.
pub open spec fn trouble_line(message: Seq<char>) -> LineView {
    seq![
        SpanView::plain("  "@),
        SpanView::styled("WARNING"@, Style::Yellow),
        SpanView::plain(message),
    ]
}

/// The warning about the detection on a port, where one is due.
pub open spec fn detection_warning() -> spec_fn((u16, DetectionView)) -> Option<LineView> {
    |d: (u16, DetectionView)|
        match d.1 {
            DetectionView::Found(_) => None,
            DetectionView::Failed(e) => Some(
                trouble_line(
                    " Service detection on port "@ + decimal::digits_of(d.0 as nat) + " failed: "@
                        + e.described(),
                ),
            ),
            DetectionView::Panicked(e) => Some(
                trouble_line(
                    " Service detection task for port "@ + decimal::digits_of(d.0 as nat)
                        + " panicked: "@ + e,
                ),
            ),
        }
}

/// The warnings about the detections.
pub open spec fn detection_warnings(detections: Seq<(u16, DetectionView)>) -> Seq<LineView> {
    detections.filter_map(detection_warning())
}

/// The detector for a scan, by the outcome of `which nmap`.
pub fn service_detector(which: &core::result::Result<CommandOutput, String>) -> (r: Outcome<
    NmapDetector,
>)
    ensures
        outcome(r) == (match tool("nmap"@, which_view(*which)) {
            Ok(t) => Ok(t),
            Err(e) => Err(
                ErrorView::ServiceDetection("Failed to initialize nmap: "@ + e.described()),
            ),
        }),
{
    match NmapDetector::new(which) {
        Ok(detector) => Ok(detector),
        Err(e) => {
            let reason = e.describe();
            Err(
                OxideScannerError::service_detection(
                    cat("Failed to initialize nmap: ", reason.as_str()).as_str(),
                ),
            )
        },
    }
}

/// The line about a detection that did not end well.
fn trouble(message: &str) -> (r: Line)
    ensures
        r.deep_view() == trouble_line(message@),
{
    vec![plain("  "), styled("WARNING", Style::Yellow), plain(message)]
}

/// The warning about the detection on a port, where one is due.
fn warn_about(port: u16, detection: &Detection) -> (r: Option<Line>)
    ensures
        r.deep_view() == detection_warning()((port, detection.deep_view())),
{
    let number = decimal::write(port as u64);
    match detection {
        Detection::Found(_) => None,
        Detection::Failed(e) => {
            let reason = e.describe();
            let mut s = cat(" Service detection on port ", number.as_str());
            s.append(" failed: ");
            s.append(reason.as_str());
            Some(trouble(s.as_str()))
        },
        Detection::Panicked(e) => {
            let mut s = cat(" Service detection task for port ", number.as_str());
            s.append(" panicked: ");
            s.append(e.as_str());
            Some(trouble(s.as_str()))
        },
    }
}

/// The warnings about the detections, each with its port.
pub fn warn_about_detections(detections: &[(u16, Detection)]) -> (r: Vec<Line>)
    ensures
        r.deep_view() == detection_warnings(detections.deep_view()),
{
    let ghost all = detections.deep_view();
    let mut out: Vec<Line> = Vec::new();
    let mut i: usize = 0;
    while i < detections.len()
        invariant
            i <= detections@.len(),
            all == detections.deep_view(),
            out.deep_view() == detection_warnings(all.take(i as int)),
        decreases detections@.len() - i,
    {
        proof {
            all.lemma_filter_map_take_succ(detection_warning(), i as int);
        }
        match warn_about(detections[i].0, &detections[i].1) {
            Some(line) => {
                out.push(line);
            },
            None => {},
        }
        i += 1;
    }
    assert(all.take(i as int) =~= all);
    out
}

/// Copies of the services.
fn copy_services(services: &[NmapService]) -> (r: Vec<NmapService>)
    ensures
        r.deep_view() == services.deep_view(),
{
    let mut out: Vec<NmapService> = Vec::new();
    let mut i: usize = 0;
    while i < services.len()
        invariant
            i <= services@.len(),
            out.deep_view() == services.deep_view().take(i as int),
        decreases services@.len() - i,
    {
        let ghost before = out.deep_view();
        let s = &services[i];
        out.push(
            NmapService {
                port: s.port,
                service: s.service.clone(),
                product: s.product.clone(),
                version: s.version.clone(),
            },
        );
        assert(out.deep_view() =~= before.push(services.deep_view()[i as int]));
        i += 1;
    }
    out
}

/// The services of a target as ports in order, by how the detection on each
/// port ended.
pub fn detect_services(detections: &[(u16, Detection)], is_udp: bool) -> (r: Vec<Port>)
    ensures
        r.deep_view() == detected(detections.deep_view(), is_udp),
{
    let ghost all = ends(detections.deep_view());
    let mut services: Vec<NmapService> = Vec::new();
    let mut i: usize = 0;
    while i < detections.len()
        invariant
            i <= detections@.len(),
            all == ends(detections.deep_view()),
            services.deep_view() == all.take(i as int).flat_map(found()),
        decreases detections@.len() - i,
    {
        proof {
            all.lemma_flat_map_take_append(found(), i as int);
        }
        match &detections[i].1 {
            Detection::Found(found_services) => {
                let mut copies = copy_services(found_services.as_slice());
                services.append(&mut copies);
            },
            _ => {},
        }
        i += 1;
    }
    assert(all.take(i as int) =~= all);
    let ghost unsorted = services@;
    let sorted = sorting::sort_by_port(services);
    proof {
        let g = |s: NmapService| s.deep_view();
        sorting::theorem_sorted_map(unsorted, g);
        assert(unsorted.map_values(g) =~= all.flat_map(found()));
    }
    services_to_ports(sorted, is_udp)
}

/// The services as ports.
fn services_to_ports(services: Vec<NmapService>, is_udp: bool) -> (r: Vec<Port>)
    ensures
        r.deep_view() == services@.map_values(|s: NmapService| s.deep_view()).map_values(
            recognised_on(is_udp),
        ),
{
    let mut ports: Vec<Port> = Vec::new();
    let mut i: usize = 0;
    while i < services.len()
        invariant
            i <= services@.len(),
            ports@.len() == i,
            forall|j: int|
                0 <= j < i ==> (#[trigger] ports@[j]).deep_view() == PortView::recognised(
                    services@[j].deep_view(),
                    is_udp,
                ),
        decreases services@.len() - i,
    {
        let s = &services[i];
        let port = if is_udp {
            Port::with_service_udp(s.port, s.service.clone(), s.product.clone(), s.version.clone())
        } else {
            Port::with_service(s.port, s.service.clone(), s.product.clone(), s.version.clone())
        };
        ports.push(port);
        i += 1;
    }
    ports
}

/// The services that the detections found are all there and none besides, in
/// order, and those on one port as they were found. Sorting them once more
/// makes no difference.
pub proof fn theorem_detected(detections: Seq<(u16, DetectionView)>, is_udp: bool, port: u16)
    ensures
        sorting::ordered(detected(detections, is_udp)),
        detected(detections, is_udp).to_multiset() == ends(detections).flat_map(
            found(),
        ).map_values(recognised_on(is_udp)).to_multiset(),
        sorting::of_port(detected(detections, is_udp), port) == sorting::of_port(
            ends(detections).flat_map(found()).map_values(recognised_on(is_udp)),
            port,
        ),
        sorting::sorted(detected(detections, is_udp)) == detected(detections, is_udp),
{
    let services = ends(detections).flat_map(found());
    let f = recognised_on(is_udp);
    sorting::theorem_sorted_map(services, f);
    sorting::theorem_sorted(services.map_values(f), port);
    sorting::theorem_ordered_is_sorted(detected(detections, is_udp));
}

/// A detection warns or finds services, never both.
pub proof fn theorem_warned_or_found(port: u16, detection: DetectionView)
    ensures
        detection_warning()((port, detection)) is Some ==> found()(detection).len() == 0,
{
}

/// How a script run ended.
#[derive(Debug)]
pub enum ScriptRun {
    /// There was nothing to run the scripts with.
    NoRunner(OxideScannerError),
    /// The run failed.
    Failed(OxideScannerError),
    /// The scripts reported this.
    Done(Vec<NseResult>),
}

/// The end of a script run by its contents.
#[verifier::ext_equal]
pub enum ScriptRunView {
    NoRunner(ErrorView),
    Failed(ErrorView),
    Done(Seq<NseView>),
}

impl DeepView for ScriptRun {
    type V = ScriptRunView;

    open spec fn deep_view(&self) -> ScriptRunView {
        match *self {
            ScriptRun::NoRunner(e) => ScriptRunView::NoRunner(e.deep_view()),
            ScriptRun::Failed(e) => ScriptRunView::Failed(e.deep_view()),
            ScriptRun::Done(results) => ScriptRunView::Done(results.deep_view()),
        }
    }
}

impl ScriptRunView {
    /// What the scripts reported; nothing where they did not run.
    pub open spec fn results(self) -> Seq<NseView> {
        match self {
            ScriptRunView::Done(results) => results,
            _ => Seq::empty(),
        }
    }

    /// The warnings about the run.
    pub open spec fn warnings(self) -> Seq<LineView> {
        match self {
            ScriptRunView::NoRunner(e) => seq![
                warning_line("NSE runner init failed: "@ + e.described()),
            ],
            ScriptRunView::Failed(e) => seq![
                warning_line("NSE execution failed: "@ + e.described()),
            ],
            ScriptRunView::Done(_) => Seq::empty(),
        }
    }
}

/// What the scripts reported, and the warnings about the run.
pub fn run_nse_scripts(run: &ScriptRun) -> (r: (&[NseResult], Vec<Line>))
    ensures
        r.0.deep_view() == run.deep_view().results(),
        r.1.deep_view() == run.deep_view().warnings(),
{
    let mut warnings: Vec<Line> = Vec::new();
    match run {
        ScriptRun::NoRunner(e) => {
            let reason = e.describe();
            warnings.push(warning(cat("NSE runner init failed: ", reason.as_str()).as_str()));
            (&[], warnings)
        },
        ScriptRun::Failed(e) => {
            let reason = e.describe();
            warnings.push(warning(cat("NSE execution failed: ", reason.as_str()).as_str()));
            (&[], warnings)
        },
        ScriptRun::Done(results) => {
            (results.as_slice(), warnings)
        },
    }
}

/// An operating system and how it was recognised.
#[derive(Debug)]
pub struct OsResult {
    pub name: String,
    pub distro: String,
    /// How sure the detection is, in percent.
    pub confidence_percent: u8,
    pub source: String,
}

/// An operating system by the characters of its texts.
#[verifier::ext_equal]
pub struct OsView {
    pub name: Seq<char>,
    pub distro: Seq<char>,
    pub confidence_percent: u8,
    pub source: Seq<char>,
}

impl DeepView for OsResult {
    type V = OsView;

    open spec fn deep_view(&self) -> OsView {
        OsView {
            name: self.name@,
            distro: self.distro@,
            confidence_percent: self.confidence_percent,
            source: self.source@,
        }
    }
}

impl Clone for OsResult {
    fn clone(&self) -> (r: Self)
        ensures
            r.deep_view() == self.deep_view(),
    {
        OsResult {
            name: self.name.clone(),
            distro: self.distro.clone(),
            confidence_percent: self.confidence_percent,
            source: self.source.clone(),
        }
    }
}

impl OsView {
    /// Name and distribution, as far as they are known.
    pub open spec fn label(self) -> Seq<char> {
        if self.distro.len() == 0 {
            self.name
        } else {
            self.name + ", "@ + self.distro
        }
    }
}

impl OsResult {
    pub fn distro_label(&self) -> (r: String)
        ensures
            r@ == self.deep_view().label(),
    {
        if self.distro.as_str().is_empty() {
            self.name.clone()
        } else {
            let mut s = cat(self.name.as_str(), ", ");
            s.append(self.distro.as_str());
            s
        }
    }
}

/// Words in a service banner, each with the system and the distribution that
/// it gives away.
pub open spec fn os_keywords() -> Seq<(Seq<char>, Seq<char>, Seq<char>)> {
    seq![
        ("Ubuntu"@, "Linux"@, "Ubuntu"@),
        ("Debian"@, "Linux"@, "Debian"@),
        ("CentOS"@, "Linux"@, "CentOS"@),
        ("Red Hat"@, "Linux"@, "RHEL"@),
        ("FreeBSD"@, "FreeBSD"@, ""@),
        ("Windows"@, "Windows"@, "Windows"@),
        ("Microsoft"@, "Windows"@, "Windows"@),
        ("macOS"@, "macOS"@, ""@),
        ("Darwin"@, "macOS"@, ""@),
        ("SUSE"@, "Linux"@, "SUSE"@),
        ("Fedora"@, "Linux"@, "Fedora"@),
        ("Arch"@, "Linux"@, "Arch"@),
        ("Alpine"@, "Linux"@, "Alpine"@),
    ]
}

/// What a service says of itself.
pub open spec fn banner(port: PortView) -> Seq<char> {
    port.service + " "@ + port.product + " "@ + port.version
}

/// The system behind the first of the words that occurs in a banner.
pub open spec fn os_by_keyword(
    banner: Seq<char>,
    keywords: Seq<(Seq<char>, Seq<char>, Seq<char>)>,
) -> Option<OsView>
    decreases keywords.len(),
{
    if keywords.len() == 0 {
        None
    } else if text::occurs_in(banner, keywords[0].0) {
        Some(
            OsView {
                name: keywords[0].1,
                distro: keywords[0].2,
                confidence_percent: 85,
                source: "service_banner"@,
            },
        )
    } else {
        os_by_keyword(banner, keywords.skip(1))
    }
}

/// The system that the first service with a telling banner gives away.
pub open spec fn os_by_banner(services: Seq<PortView>) -> Option<OsView>
    decreases services.len(),
{
    if services.len() == 0 {
        None
    } else {
        match os_by_keyword(banner(services[0]), os_keywords()) {
            Some(os) => Some(os),
            None => os_by_banner(services.skip(1)),
        }
    }
}

/// One of the words occurs in a banner.
pub open spec fn tells(banner: Seq<char>, keywords: Seq<(Seq<char>, Seq<char>, Seq<char>)>) -> bool {
    exists|k: int| 0 <= k < keywords.len() && text::occurs_in(banner, (#[trigger] keywords[k]).0)
}

proof fn lemma_os_by_keyword(
    banner: Seq<char>,
    keywords: Seq<(Seq<char>, Seq<char>, Seq<char>)>,
)
    ensures
        os_by_keyword(banner, keywords) is Some <==> tells(banner, keywords),
    decreases keywords.len(),
{
    if keywords.len() > 0 && !text::occurs_in(banner, keywords[0].0) {
        let rest = keywords.skip(1);
        lemma_os_by_keyword(banner, rest);
        if tells(banner, keywords) {
            let k = choose|k: int|
                0 <= k < keywords.len() && text::occurs_in(banner, (#[trigger] keywords[k]).0);
            assert(rest[k - 1] == keywords[k]);
        }
        if tells(banner, rest) {
            let k = choose|k: int|
                0 <= k < rest.len() && text::occurs_in(banner, (#[trigger] rest[k]).0);
        }
    }
}

/// The banners give a system away just where one of the words occurs in one of
/// them.
pub proof fn theorem_os_by_banner(services: Seq<PortView>)
    ensures
        os_by_banner(services) is Some <==> exists|i: int|
            0 <= i < services.len() && tells(#[trigger] banner(services[i]), os_keywords()),
    decreases services.len(),
{
    if services.len() > 0 {
        let rest = services.skip(1);
        lemma_os_by_keyword(banner(services[0]), os_keywords());
        theorem_os_by_banner(rest);
        assert(forall|i: int|
            1 <= i < services.len() ==> banner(rest[i - 1]) == #[trigger] banner(services[i]));
        if os_by_banner(rest) is Some {
            let i = choose|i: int|
                0 <= i < rest.len() && tells(#[trigger] banner(rest[i]), os_keywords());
        }
    }
}

/// The table of the telling words.
fn keyword_table() -> (r: Vec<(&'static str, &'static str, &'static str)>)
    ensures
        r.deep_view() == os_keywords(),
{
    vec![
        ("Ubuntu", "Linux", "Ubuntu"),
        ("Debian", "Linux", "Debian"),
        ("CentOS", "Linux", "CentOS"),
        ("Red Hat", "Linux", "RHEL"),
        ("FreeBSD", "FreeBSD", ""),
        ("Windows", "Windows", "Windows"),
        ("Microsoft", "Windows", "Windows"),
        ("macOS", "macOS", ""),
        ("Darwin", "macOS", ""),
        ("SUSE", "Linux", "SUSE"),
        ("Fedora", "Linux", "Fedora"),
        ("Arch", "Linux", "Arch"),
        ("Alpine", "Linux", "Alpine"),
    ]
}

/// The system behind the first of the words that occurs in a banner.
fn find_keyword(banner: &str, keywords: &Vec<(&'static str, &'static str, &'static str)>) -> (r:
    Option<OsResult>)
    ensures
        r.deep_view() == os_by_keyword(banner@, keywords.deep_view()),
{
    let ghost all = keywords.deep_view();
    let mut i: usize = 0;
    assert(all.skip(0) =~= all);
    while i < keywords.len()
        invariant
            i <= keywords@.len(),
            all == keywords.deep_view(),
            os_by_keyword(banner@, all) == os_by_keyword(banner@, all.skip(i as int)),
        decreases keywords@.len() - i,
    {
        let (word, name, distro) = keywords[i];
        if text::contains(banner, word) {
            return Some(
                OsResult {
                    name: name.to_owned(),
                    distro: distro.to_owned(),
                    confidence_percent: 85,
                    source: "service_banner".to_owned(),
                },
            );
        }
        assert(all.skip(i as int).skip(1) =~= all.skip(i + 1));
        i += 1;
    }
    None
}

/// The operating system that the banners of the services give away.
pub fn infer_os_from_services(services: &[Port]) -> (r: Option<OsResult>)
    ensures
        r.deep_view() == os_by_banner(services.deep_view()),
{
    let ghost all = services.deep_view();
    let keywords = keyword_table();
    let mut i: usize = 0;
    assert(all.skip(0) =~= all);
    while i < services.len()
        invariant
            i <= services@.len(),
            all == services.deep_view(),
            keywords.deep_view() == os_keywords(),
            os_by_banner(all) == os_by_banner(all.skip(i as int)),
        decreases services@.len() - i,
    {
        let service = &services[i];
        let mut combined = cat(service.service.as_str(), " ");
        combined.append(service.product.as_str());
        combined.append(" ");
        combined.append(service.version.as_str());
        match find_keyword(combined.as_str(), &keywords) {
            Some(os) => {
                return Some(os);
            },
            None => {},
        }
        assert(all.skip(i as int).skip(1) =~= all.skip(i + 1));
        i += 1;
    }
    None
}

/// The operating system of a target: what nmap recognised comes before what
/// the banners give away, and nmap is not asked where there is no service.
pub open spec fn os_of(services: Seq<PortView>, nmap_os: Option<OsView>) -> Option<OsView> {
    if services.len() > 0 && nmap_os is Some {
        nmap_os
    } else {
        os_by_banner(services)
    }
}

/// The operating system of a target, given what nmap recognised.
pub fn detect_os(services: &[Port], nmap_os: Option<OsResult>) -> (r: Option<OsResult>)
    ensures
        r.deep_view() == os_of(services.deep_view(), nmap_os.deep_view()),
{
    let banner_os = infer_os_from_services(services);
    if services.len() == 0 {
        return banner_os;
    }
    match nmap_os {
        Some(os) => Some(os),
        None => banner_os,
    }
}

/// The arguments for a detection of the operating system.
pub open spec fn os_args(target: Seq<char>, ports: Seq<u16>) -> Seq<Seq<char>> {
    seq![
        "-O"@,
        "-sV"@,
        "--version-intensity"@,
        decimal::digits_of(constants::NMAP_VERSION_INTENSITY as nat),
        "-p"@,
        port_list(ports),
        "-oX"@,
        "-"@,
        "--open"@,
        "--disable-arp-ping"@,
        "-Pn"@,
        target,
    ]
}

/// The arguments for a detection of the operating system.
pub fn os_detection_args(target: &str, ports: &[u16]) -> (r: Vec<String>)
    ensures
        r.deep_view() == os_args(target@, ports@),
{
    let mut args: Vec<String> = Vec::new();
    args.push("-O".to_owned());
    args.push("-sV".to_owned());
    args.push("--version-intensity".to_owned());
    args.push(decimal::write(constants::NMAP_VERSION_INTENSITY as u64));
    args.push("-p".to_owned());
    args.push(write_port_list(ports));
    args.push("-oX".to_owned());
    args.push("-".to_owned());
    args.push("--open".to_owned());
    args.push("--disable-arp-ping".to_owned());
    args.push("-Pn".to_owned());
    args.push(target.to_owned());
    args
}

/// A list of one text, or of none.
pub open spec fn present(value: Option<Seq<char>>) -> Seq<Seq<char>> {
    match value {
        Some(v) => seq![v],
        None => Seq::empty(),
    }
}

/// Vendor, family and generation of the first class element, as far as they
/// are named; empty if there is no class element.
pub open spec fn os_class_text(doc: DocumentView, node: usize) -> Seq<char> {
    let classes = doc.children_named(node, "osclass"@);
    if classes.len() == 0 {
        Seq::empty()
    } else {
        text::joined(
            present(doc.attribute(classes[0], "vendor"@)) + present(
                doc.attribute(classes[0], "osfamily"@),
            ) + present(doc.attribute(classes[0], "osgen"@)),
            " "@,
        )
    }
}

/// The operating system of the first element of a report, if it has a name and
/// an accuracy. A Windows system goes by its class, any other by its name.
pub open spec fn os_recognised(doc: DocumentView) -> Option<OsView> {
    let elements = os_elements(doc);
    if elements.len() == 0 {
        None
    } else {
        let class = os_class_text(doc, elements[0]);
        match (doc.attribute(elements[0], "name"@), accuracy_of(doc, elements[0])) {
            (Some(name), Some(accuracy)) => Some(
                OsView {
                    name: if text::occurs_in(class, "Windows"@) {
                        "Windows"@
                    } else {
                        name
                    },
                    distro: if text::occurs_in(class, "Windows"@) {
                        class
                    } else {
                        Seq::empty()
                    },
                    confidence_percent: accuracy as u8,
                    source: "nmap_os_detection"@,
                },
            ),
            _ => None,
        }
    }
}

/// The operating system that the text of a report names.
pub open spec fn os_recognised_in_text(xml: Seq<char>) -> Option<OsView> {
    match xml::parsed(xml) {
        Ok(doc) => os_recognised(doc),
        Err(_) => None,
    }
}

/// The operating system in what nmap left behind.
pub open spec fn os_recognised_in_output(output: OutputView) -> Option<OsView> {
    if output.success {
        os_recognised_in_text(cleaned(text::utf8_lossy(output.stdout)))
    } else {
        None
    }
}

/// Adds a text to a list, where there is one.
fn push_present(parts: &mut Vec<String>, value: Option<&String>)
    ensures
        final(parts).deep_view() == old(parts).deep_view() + present(value.deep_view()),
{
    match value {
        Some(v) => {
            parts.push(v.clone());
        },
        None => {},
    }
}

/// Vendor, family and generation of the first class element.
fn read_os_class_text(doc: &XmlDocument, node: usize) -> (r: String)
    requires
        doc.deep_view().wf(),
        node < doc.deep_view().nodes.len(),
    ensures
        r@ == os_class_text(doc.deep_view(), node),
{
    let classes = doc.children_named(node, "osclass");
    if classes.len() == 0 {
        return String::new();
    }
    let class: usize = classes[0];
    let mut parts: Vec<String> = Vec::new();
    push_present(&mut parts, doc.attribute(class, "vendor"));
    push_present(&mut parts, doc.attribute(class, "osfamily"));
    push_present(&mut parts, doc.attribute(class, "osgen"));
    text::join(&parts, " ")
}

/// The operating system that a report names.
pub fn os_from_report(doc: &XmlDocument) -> (r: Option<OsResult>)
    requires
        doc.deep_view().wf(),
    ensures
        r.deep_view() == os_recognised(doc.deep_view()),
{
    let elements = find_os_elements(doc);
    if elements.len() == 0 {
        return None;
    }
    let element: usize = elements[0];
    match (doc.attribute(element, "name"), read_accuracy(doc, element)) {
        (Some(name), Some(accuracy)) => {
            let class = read_os_class_text(doc, element);
            let windows = text::contains(class.as_str(), "Windows");
            Some(
                OsResult {
                    name: if windows {
                        "Windows".to_owned()
                    } else {
                        name.clone()
                    },
                    distro: if windows {
                        class
                    } else {
                        String::new()
                    },
                    confidence_percent: accuracy,
                    source: "nmap_os_detection".to_owned(),
                },
            )
        },
        _ => None,
    }
}

/// The operating system that the text of a report names.
pub fn os_from_text(xml_content: &str) -> (r: Option<OsResult>)
    ensures
        r.deep_view() == os_recognised_in_text(xml_content@),
{
    match xml::parse(xml_content) {
        Ok(doc) => os_from_report(&doc),
        Err(_) => None,
    }
}

/// The operating system in what nmap left behind.
pub fn os_from_output(output: &CommandOutput) -> (r: Option<OsResult>)
    ensures
        r.deep_view() == os_recognised_in_output(output.deep_view()),
{
    if !output.success {
        return None;
    }
    let report = text::decode_lossy(output.stdout.as_slice());
    let xml = clean_report(report.as_str());
    os_from_text(xml.as_str())
}

} // verus!
