//! What single attempts tell of a port, and what the probes of a scan come to.

use crate::external::nmap::ServiceView;
use crate::sorting::{self, HasPort, PortNumber};
use vstd::prelude::*;

verus! {

/// An open port and what is known of the service behind it.
#[derive(Debug)]
pub struct Port {
    pub port: u16,
    pub protocol: String,
    pub service: String,
    pub product: String,
    pub version: String,
}

/// A port by the characters of its texts.
#[verifier::ext_equal]
pub struct PortView {
    pub port: u16,
    pub protocol: Seq<char>,
    pub service: Seq<char>,
    pub product: Seq<char>,
    pub version: Seq<char>,
}

impl DeepView for Port {
    type V = PortView;

    open spec fn deep_view(&self) -> PortView {
        PortView {
            port: self.port,
            protocol: self.protocol@,
            service: self.service@,
            product: self.product@,
            version: self.version@,
        }
    }
}

impl Clone for Port {
    fn clone(&self) -> (r: Self)
        ensures
            r.deep_view() == self.deep_view(),
    {
        Port {
            port: self.port,
            protocol: self.protocol.clone(),
            service: self.service.clone(),
            product: self.product.clone(),
            version: self.version.clone(),
        }
    }
}

impl HasPort for Port {
    open spec fn port_key(self) -> u16 {
        self.port
    }
}

impl HasPort for PortView {
    open spec fn port_key(self) -> u16 {
        self.port
    }
}

impl PortNumber for Port {
    fn port_number(&self) -> (r: u16) {
        self.port
    }
}

/// The name of the protocol.
pub open spec fn protocol_name(is_udp: bool) -> Seq<char> {
    if is_udp {
        "udp"@
    } else {
        "tcp"@
    }
}

impl PortView {
    /// A port of whose service nothing is known.
    pub open spec fn bare(port: u16, is_udp: bool) -> PortView {
        PortView {
            port,
            protocol: protocol_name(is_udp),
            service: Seq::empty(),
            product: Seq::empty(),
            version: Seq::empty(),
        }
    }

    /// A port with a service that nmap recognised.
    pub open spec fn recognised(service: ServiceView, is_udp: bool) -> PortView {
        PortView {
            port: service.port,
            protocol: protocol_name(is_udp),
            service: service.service,
            product: service.product,
            version: service.version,
        }
    }
}

impl Port {
    pub fn new(port: u16) -> (r: Self)
        ensures
            r.deep_view() == PortView::bare(port, false),
    {
        Port {
            port,
            protocol: "tcp".to_owned(),
            service: String::new(),
            product: String::new(),
            version: String::new(),
        }
    }

    pub fn new_udp(port: u16) -> (r: Self)
        ensures
            r.deep_view() == PortView::bare(port, true),
    {
        Port {
            port,
            protocol: "udp".to_owned(),
            service: String::new(),
            product: String::new(),
            version: String::new(),
        }
    }

    pub fn with_service(port: u16, service: String, product: String, version: String) -> (r: Self)
        ensures
            r.deep_view() == (PortView {
                port,
                protocol: "tcp"@,
                service: service@,
                product: product@,
                version: version@,
            }),
    {
        Port { port, protocol: "tcp".to_owned(), service, product, version }
    }

    pub fn with_service_udp(port: u16, service: String, product: String, version: String) -> (r:
        Self)
        ensures
            r.deep_view() == (PortView {
                port,
                protocol: "udp"@,
                service: service@,
                product: product@,
                version: version@,
            }),
    {
        Port { port, protocol: "udp".to_owned(), service, product, version }
    }
}

/// The numbers of the ports.
pub open spec fn numbers_of(ports: Seq<PortView>) -> Seq<u16> {
    ports.map_values(|p: PortView| p.port)
}

/// The numbers of the ports.
pub fn port_numbers(ports: &[Port]) -> (r: Vec<u16>)
    ensures
        r@ == numbers_of(ports.deep_view()),
{
    let mut out: Vec<u16> = Vec::new();
    let mut i: usize = 0;
    while i < ports.len()
        invariant
            i <= ports@.len(),
            out@ == numbers_of(ports.deep_view()).take(i as int),
        decreases ports@.len() - i,
    {
        out.push(ports[i].port);
        i += 1;
    }
    out
}

/// What a probe tells of a port.
#[derive(Debug, Clone, Copy, PartialEq, Eq, Structural)]
pub enum PortStatus {
    Open,
    Closed,
    Filtered,
}

/// The ports of a scan, by what was found.
#[derive(Debug, Clone)]
pub struct ScanResults {
    pub open: Vec<Port>,
    pub filtered: Vec<u16>,
    pub closed: usize,
}

/// The ports of a scan by their contents.
#[verifier::ext_equal]
pub struct ResultsView {
    pub open: Seq<PortView>,
    pub filtered: Seq<u16>,
    pub closed: nat,
}

impl DeepView for ScanResults {
    type V = ResultsView;

    open spec fn deep_view(&self) -> ResultsView {
        ResultsView {
            open: self.open.deep_view(),
            filtered: self.filtered@,
            closed: self.closed as nat,
        }
    }
}

/// How one attempt to connect ended.
#[derive(Debug, Clone, Copy, PartialEq, Eq, Structural)]
pub enum TcpAttempt {
    Connected,
    Refused,
    Reset,
    Failed,
    TimedOut,
}

impl TcpAttempt {
    /// What the attempt tells of the port, if anything.
    pub open spec fn tells(self) -> Option<PortStatus> {
        match self {
            TcpAttempt::Connected => Some(PortStatus::Open),
            TcpAttempt::Refused => Some(PortStatus::Closed),
            TcpAttempt::Reset => Some(PortStatus::Closed),
            TcpAttempt::Failed => None,
            TcpAttempt::TimedOut => None,
        }
    }

    /// What the attempt tells of the port; nothing where the next address is to
    /// be tried.
    pub fn verdict(&self) -> (r: Option<PortStatus>)
        ensures
            r == self.tells(),
    {
        match self {
            TcpAttempt::Connected => Some(PortStatus::Open),
            TcpAttempt::Refused => Some(PortStatus::Closed),
            TcpAttempt::Reset => Some(PortStatus::Closed),
            TcpAttempt::Failed => None,
            TcpAttempt::TimedOut => None,
        }
    }
}

/// How one attempt to get a datagram back ended.
#[derive(Debug, Clone, Copy, PartialEq, Eq, Structural)]
pub enum UdpAttempt {
    BindFailed,
    ConnectFailed,
    SendFailed,
    Reply,
    NoReply,
}

impl UdpAttempt {
    /// What the attempt tells of the port, if anything.
    pub open spec fn tells(self) -> Option<PortStatus> {
        if self == UdpAttempt::Reply {
            Some(PortStatus::Open)
        } else {
            None
        }
    }

    /// What the attempt tells of the port; nothing where the next address is to
    /// be tried.
    pub fn verdict(&self) -> (r: Option<PortStatus>)
        ensures
            r == self.tells(),
    {
        match self {
            UdpAttempt::Reply => Some(PortStatus::Open),
            _ => None,
        }
    }
}

/// The first attempt that tells something decides; a port of which none tells
/// anything is filtered.
pub open spec fn decided(verdicts: Seq<Option<PortStatus>>) -> PortStatus
    decreases verdicts.len(),
{
    if verdicts.len() == 0 {
        PortStatus::Filtered
    } else {
        match verdicts[0] {
            Some(status) => status,
            None => decided(verdicts.skip(1)),
        }
    }
}

/// The verdicts of attempts to connect.
pub open spec fn tcp_verdicts(attempts: Seq<TcpAttempt>) -> Seq<Option<PortStatus>> {
    attempts.map_values(|a: TcpAttempt| a.tells())
}

/// The verdicts of attempts to get a datagram back.
pub open spec fn udp_verdicts(attempts: Seq<UdpAttempt>) -> Seq<Option<PortStatus>> {
    attempts.map_values(|a: UdpAttempt| a.tells())
}

/// Once an attempt has told something, further attempts make no difference.
pub proof fn theorem_decided_early(
    verdicts: Seq<Option<PortStatus>>,
    further: Seq<Option<PortStatus>>,
)
    requires
        exists|i: int| 0 <= i < verdicts.len() && verdicts[i] is Some,
    ensures
        decided(verdicts + further) == decided(verdicts),
    decreases verdicts.len(),
{
    if verdicts[0] is None {
        let i = choose|i: int| 0 <= i < verdicts.len() && verdicts[i] is Some;
        assert(verdicts.skip(1)[i - 1] is Some);
        theorem_decided_early(verdicts.skip(1), further);
        assert((verdicts + further).skip(1) =~= verdicts.skip(1) + further);
    }
}

/// A UDP scan never finds a port closed.
pub proof fn theorem_udp_never_closed(attempts: Seq<UdpAttempt>)
    ensures
        decided(udp_verdicts(attempts)) != PortStatus::Closed,
    decreases attempts.len(),
{
    if attempts.len() > 0 {
        theorem_udp_never_closed(attempts.skip(1));
        assert(udp_verdicts(attempts).skip(1) =~= udp_verdicts(attempts.skip(1)));
    }
}

/// What a probe of a port does next.
#[derive(Debug, Clone, Copy, PartialEq, Eq, Structural)]
pub enum ProbeStep {
    /// Try the address at this position.
    Try(usize),
    /// The status of the port is known.
    Decided(PortStatus),
}

/// What comes next after so many attempts: the next address, unless an attempt
/// has told something or there is no address left.
pub open spec fn probe_step(verdicts: Seq<Option<PortStatus>>, addresses: nat) -> ProbeStep {
    if verdicts.len() < addresses && (forall|i: int|
        0 <= i < verdicts.len() ==> #[trigger] verdicts[i] is None) {
        ProbeStep::Try(verdicts.len() as usize)
    } else {
        ProbeStep::Decided(decided(verdicts))
    }
}

/// A probe that is decided stays so, whatever further attempts would tell.
pub proof fn theorem_probe_decided(
    verdicts: Seq<Option<PortStatus>>,
    addresses: nat,
    further: Seq<Option<PortStatus>>,
)
    requires
        probe_step(verdicts, addresses) is Decided,
        verdicts.len() + further.len() <= addresses,
    ensures
        probe_step(verdicts + further, addresses) == probe_step(verdicts, addresses),
{
    if verdicts.len() < addresses {
        let i = choose|i: int| 0 <= i < verdicts.len() && #[trigger] verdicts[i] is Some;
        assert((verdicts + further)[i] is Some);
        theorem_decided_early(verdicts, further);
    }
}

/// What a probe by attempts to connect does next, one attempt per address.
pub fn tcp_probe_step(attempts: &[TcpAttempt], addresses: usize) -> (r: ProbeStep)
    ensures
        r == probe_step(tcp_verdicts(attempts@), addresses as nat),
{
    let ghost all = tcp_verdicts(attempts@);
    let mut i: usize = 0;
    assert(all.skip(0) =~= all);
    while i < attempts.len()
        invariant
            i <= attempts@.len(),
            all == tcp_verdicts(attempts@),
            decided(all) == decided(all.skip(i as int)),
            forall|j: int| 0 <= j < i ==> #[trigger] all[j] is None,
        decreases attempts@.len() - i,
    {
        match attempts[i].verdict() {
            Some(status) => {
                return ProbeStep::Decided(status);
            },
            None => {},
        }
        assert(all.skip(i as int).skip(1) =~= all.skip(i + 1));
        i += 1;
    }
    if attempts.len() < addresses {
        ProbeStep::Try(attempts.len())
    } else {
        ProbeStep::Decided(PortStatus::Filtered)
    }
}

/// What a probe by datagrams does next, one attempt per address.
pub fn udp_probe_step(attempts: &[UdpAttempt], addresses: usize) -> (r: ProbeStep)
    ensures
        r == probe_step(udp_verdicts(attempts@), addresses as nat),
{
    let ghost all = udp_verdicts(attempts@);
    let mut i: usize = 0;
    assert(all.skip(0) =~= all);
    while i < attempts.len()
        invariant
            i <= attempts@.len(),
            all == udp_verdicts(attempts@),
            decided(all) == decided(all.skip(i as int)),
            forall|j: int| 0 <= j < i ==> #[trigger] all[j] is None,
        decreases attempts@.len() - i,
    {
        match attempts[i].verdict() {
            Some(status) => {
                return ProbeStep::Decided(status);
            },
            None => {},
        }
        assert(all.skip(i as int).skip(1) =~= all.skip(i + 1));
        i += 1;
    }
    if attempts.len() < addresses {
        ProbeStep::Try(attempts.len())
    } else {
        ProbeStep::Decided(PortStatus::Filtered)
    }
}

/// The result of a probe whose task did not end well: port 0, filtered.
pub open spec fn probe_result(ended: Option<(u16, PortStatus)>) -> (u16, PortStatus) {
    match ended {
        Some(result) => result,
        None => (0, PortStatus::Filtered),
    }
}

/// Those with a given status.
pub open spec fn with_status(status: PortStatus) -> spec_fn((u16, PortStatus)) -> Option<u16> {
    |p: (u16, PortStatus)|
        if p.1 == status {
            Some(p.0)
        } else {
            None
        }
}

/// The ports with a given status, in the order of the probes.
pub open spec fn ports_with(probes: Seq<(u16, PortStatus)>, status: PortStatus) -> Seq<u16> {
    probes.filter_map(with_status(status))
}

/// The results of a scan: the open and the filtered ports in order, and the
/// number of the closed ones.
pub open spec fn scan_results(probes: Seq<(u16, PortStatus)>, is_udp: bool) -> ResultsView {
    ResultsView {
        open: sorting::sorted(ports_with(probes, PortStatus::Open)).map_values(
            |p: u16| PortView::bare(p, is_udp),
        ),
        filtered: sorting::sorted(ports_with(probes, PortStatus::Filtered)),
        closed: ports_with(probes, PortStatus::Closed).len(),
    }
}

/// What the ended tasks report.
pub open spec fn probe_results(ended: Seq<Option<(u16, PortStatus)>>) -> Seq<(u16, PortStatus)> {
    ended.map_values(|e: Option<(u16, PortStatus)>| probe_result(e))
}

/// The results of a scan, by how the task for each port ended.
pub fn collect_results(ended: &[Option<(u16, PortStatus)>], is_udp: bool) -> (r: ScanResults)
    ensures
        r.deep_view() == scan_results(probe_results(ended@), is_udp),
{
    let ghost probes = probe_results(ended@);
    let mut open: Vec<u16> = Vec::new();
    let mut filtered: Vec<u16> = Vec::new();
    let mut closed: usize = 0;
    let mut i: usize = 0;
    while i < ended.len()
        invariant
            i <= ended@.len(),
            probes == probe_results(ended@),
            open@ == ports_with(probes.take(i as int), PortStatus::Open),
            filtered@ == ports_with(probes.take(i as int), PortStatus::Filtered),
            closed == ports_with(probes.take(i as int), PortStatus::Closed).len(),
            closed <= i,
        decreases ended@.len() - i,
    {
        proof {
            probes.lemma_filter_map_take_succ(with_status(PortStatus::Open), i as int);
            probes.lemma_filter_map_take_succ(with_status(PortStatus::Filtered), i as int);
            probes.lemma_filter_map_take_succ(with_status(PortStatus::Closed), i as int);
        }
        let (port, status): (u16, PortStatus) = match ended[i] {
            Some(result) => result,
            None => (0, PortStatus::Filtered),
        };
        match status {
            PortStatus::Open => {
                open.push(port);
            },
            PortStatus::Filtered => {
                filtered.push(port);
            },
            PortStatus::Closed => {
                closed += 1;
            },
        }
        i += 1;
    }
    assert(probes.take(i as int) =~= probes);
    let numbers = sorting::sort_by_port(open);
    let filtered = sorting::sort_by_port(filtered);
    let mut open: Vec<Port> = Vec::new();
    let mut k: usize = 0;
    while k < numbers.len()
        invariant
            k <= numbers@.len(),
            open@.len() == k,
            forall|j: int|
                0 <= j < k ==> (#[trigger] open@[j]).deep_view() == PortView::bare(
                    numbers@[j],
                    is_udp,
                ),
        decreases numbers@.len() - k,
    {
        let port = if is_udp {
            Port::new_udp(numbers[k])
        } else {
            Port::new(numbers[k])
        };
        open.push(port);
        k += 1;
    }
    ScanResults { open, filtered, closed }
}

proof fn lemma_ports_with(probes: Seq<(u16, PortStatus)>, status: PortStatus, port: u16)
    ensures
        ports_with(probes, status).contains(port) <==> probes.contains((port, status)),
    decreases probes.len(),
{
    if probes.len() > 0 {
        let init = probes.drop_last();
        let before = ports_with(init, status);
        lemma_ports_with(init, status, port);
        if probes.last().1 == status {
            if before.contains(port) {
                let i = choose|i: int| 0 <= i < before.len() && before[i] == port;
                assert(ports_with(probes, status)[i] == port);
            }
            if probes.last().0 == port {
                assert(ports_with(probes, status)[before.len() as int] == port);
            }
        }
        if init.contains((port, status)) {
            let i = choose|i: int| 0 <= i < init.len() && init[i] == (port, status);
        }
        if probes.contains((port, status)) && probes.last() != (port, status) {
            let i = choose|i: int| 0 <= i < probes.len() && probes[i] == (port, status);
            assert(init[i] == (port, status));
        }
    }
}

proof fn lemma_partition(probes: Seq<(u16, PortStatus)>)
    ensures
        ports_with(probes, PortStatus::Open).len() + ports_with(probes, PortStatus::Filtered).len()
            + ports_with(probes, PortStatus::Closed).len() == probes.len(),
    decreases probes.len(),
{
    if probes.len() > 0 {
        lemma_partition(probes.drop_last());
    }
}

/// Every probe is counted once: as an open port, a filtered port or a closed
/// one.
pub proof fn theorem_every_probe_counts(probes: Seq<(u16, PortStatus)>, is_udp: bool)
    ensures
        scan_results(probes, is_udp).open.len() + scan_results(probes, is_udp).filtered.len()
            + scan_results(probes, is_udp).closed == probes.len(),
{
    lemma_partition(probes);
    sorting::theorem_sorted(ports_with(probes, PortStatus::Open), 0);
    sorting::theorem_sorted(ports_with(probes, PortStatus::Filtered), 0);
}

/// A port is reported open, or filtered, just where a probe found it so, and
/// the reports are in order.
pub proof fn theorem_reports_are_true(probes: Seq<(u16, PortStatus)>, is_udp: bool, port: u16)
    ensures
        numbers_of(scan_results(probes, is_udp).open).contains(port) <==> probes.contains(
            (port, PortStatus::Open),
        ),
        scan_results(probes, is_udp).filtered.contains(port) <==> probes.contains(
            (port, PortStatus::Filtered),
        ),
        sorting::ordered(scan_results(probes, is_udp).open),
        sorting::ordered(scan_results(probes, is_udp).filtered),
{
    broadcast use vstd::seq_lib::group_to_multiset_ensures;

    let open = ports_with(probes, PortStatus::Open);
    let filtered = ports_with(probes, PortStatus::Filtered);
    lemma_ports_with(probes, PortStatus::Open, port);
    lemma_ports_with(probes, PortStatus::Filtered, port);
    sorting::theorem_sorted(open, port);
    sorting::theorem_sorted(filtered, port);
    assert(numbers_of(scan_results(probes, is_udp).open) =~= sorting::sorted(open));
    assert(sorting::sorted(open).contains(port) <==> sorting::sorted(open).to_multiset().count(port)
        > 0);
    assert(sorting::sorted(filtered).contains(port) <==> sorting::sorted(
        filtered,
    ).to_multiset().count(port) > 0);
}

} // verus!
