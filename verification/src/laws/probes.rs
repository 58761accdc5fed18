//! Promises about the probes of a scan.

use crate::laws::documents::count;
use crate::scanner::{
    decided, ports_with, probe_result, probe_results, probe_step, scan_results, tcp_verdicts,
    udp_verdicts, PortStatus, PortView, ProbeStep, TcpAttempt, UdpAttempt,
};
use crate::sorting;
use vstd::prelude::*;

verus! {

/// The attempt tells nothing of the port.
pub open spec fn in_vain(attempt: TcpAttempt) -> bool {
    attempt == TcpAttempt::Failed || attempt == TcpAttempt::TimedOut
}

proof fn lemma_decided_at(verdicts: Seq<Option<PortStatus>>, i: int)
    requires
        0 <= i < verdicts.len(),
        verdicts[i] is Some,
        forall|j: int| 0 <= j < i ==> #[trigger] verdicts[j] is None,
    ensures
        decided(verdicts) == verdicts[i]->0,
    decreases verdicts.len(),
{
    if i > 0 {
        assert(verdicts[0] is None);
        let rest = verdicts.skip(1);
        assert forall|j: int| 0 <= j < i - 1 implies #[trigger] rest[j] is None by {
            assert(verdicts[j + 1] is None);
        }
        lemma_decided_at(rest, i - 1);
    }
}

proof fn lemma_undecided(verdicts: Seq<Option<PortStatus>>)
    requires
        forall|j: int| 0 <= j < verdicts.len() ==> #[trigger] verdicts[j] is None,
    ensures
        decided(verdicts) == PortStatus::Filtered,
    decreases verdicts.len(),
{
    if verdicts.len() > 0 {
        lemma_undecided(verdicts.skip(1));
    }
}

/// A connection on any address makes the port open, and a refusal or a reset
/// makes it closed, where all attempts before were in vain.
pub proof fn theorem_tcp_decided(attempts: Seq<TcpAttempt>, addresses: nat, i: int)
    requires
        0 <= i < attempts.len(),
        forall|j: int| 0 <= j < i ==> in_vain(#[trigger] attempts[j]),
    ensures
        attempts[i] == TcpAttempt::Connected ==> probe_step(tcp_verdicts(attempts), addresses)
            == ProbeStep::Decided(PortStatus::Open),
        attempts[i] == TcpAttempt::Refused || attempts[i] == TcpAttempt::Reset ==> probe_step(
            tcp_verdicts(attempts),
            addresses,
        ) == ProbeStep::Decided(PortStatus::Closed),
{
    let verdicts = tcp_verdicts(attempts);
    if !in_vain(attempts[i]) {
        assert forall|j: int| 0 <= j < i implies #[trigger] verdicts[j] is None by {
            assert(in_vain(attempts[j]));
        }
        assert(verdicts[i] is Some);
        lemma_decided_at(verdicts, i);
    }
}

/// As long as all attempts were in vain the next address is tried, and after the
/// last one the port is filtered.
pub proof fn theorem_tcp_undecided(attempts: Seq<TcpAttempt>, addresses: usize)
    requires
        forall|j: int| 0 <= j < attempts.len() ==> in_vain(#[trigger] attempts[j]),
    ensures
        probe_step(tcp_verdicts(attempts), addresses as nat) == if attempts.len() < addresses {
            ProbeStep::Try(attempts.len() as usize)
        } else {
            ProbeStep::Decided(PortStatus::Filtered)
        },
{
    let verdicts = tcp_verdicts(attempts);
    assert forall|j: int| 0 <= j < verdicts.len() implies #[trigger] verdicts[j] is None by {
        assert(in_vain(attempts[j]));
    }
    lemma_undecided(verdicts);
}

/// A port is filtered only if no attempt connected, was refused or was reset.
pub proof fn theorem_tcp_filtered(attempts: Seq<TcpAttempt>, addresses: nat, i: int)
    requires
        0 <= i < attempts.len(),
        !in_vain(attempts[i]),
    ensures
        probe_step(tcp_verdicts(attempts), addresses) != ProbeStep::Decided(PortStatus::Filtered),
        probe_step(tcp_verdicts(attempts), addresses) is Decided,
    decreases i,
{
    if exists|j: int| 0 <= j < i && !in_vain(#[trigger] attempts[j]) {
        let j = choose|j: int| 0 <= j < i && !in_vain(#[trigger] attempts[j]);
        theorem_tcp_filtered(attempts, addresses, j);
    } else {
        theorem_tcp_decided(attempts, addresses, i);
    }
}

/// A reply on any address makes the port open.
pub proof fn theorem_udp_decided(attempts: Seq<UdpAttempt>, addresses: nat, i: int)
    requires
        0 <= i < attempts.len(),
        attempts[i] == UdpAttempt::Reply,
    ensures
        probe_step(udp_verdicts(attempts), addresses) == ProbeStep::Decided(PortStatus::Open),
    decreases i,
{
    let verdicts = udp_verdicts(attempts);
    if exists|j: int| 0 <= j < i && #[trigger] attempts[j] == UdpAttempt::Reply {
        let j = choose|j: int| 0 <= j < i && #[trigger] attempts[j] == UdpAttempt::Reply;
        theorem_udp_decided(attempts, addresses, j);
    } else {
        assert forall|j: int| 0 <= j < i implies #[trigger] verdicts[j] is None by {
            assert(attempts[j] != UdpAttempt::Reply);
        }
        assert(verdicts[i] is Some);
        lemma_decided_at(verdicts, i);
    }
}

/// As long as no reply has come the next address is tried, and after the last
/// one the port is filtered.
pub proof fn theorem_udp_undecided(attempts: Seq<UdpAttempt>, addresses: usize)
    requires
        forall|j: int| 0 <= j < attempts.len() ==> #[trigger] attempts[j] != UdpAttempt::Reply,
    ensures
        probe_step(udp_verdicts(attempts), addresses as nat) == if attempts.len() < addresses {
            ProbeStep::Try(attempts.len() as usize)
        } else {
            ProbeStep::Decided(PortStatus::Filtered)
        },
{
    let verdicts = udp_verdicts(attempts);
    assert forall|j: int| 0 <= j < verdicts.len() implies #[trigger] verdicts[j] is None by {
        assert(attempts[j] != UdpAttempt::Reply);
    }
    lemma_undecided(verdicts);
}

/// A task that reports this.
pub open spec fn reports(port: u16, status: PortStatus) -> spec_fn(
    Option<(u16, PortStatus)>,
) -> bool {
    |e: Option<(u16, PortStatus)>|
        e == Some((port, status)) || (e is None && port == 0 && status == PortStatus::Filtered)
}

proof fn lemma_counts(ended: Seq<Option<(u16, PortStatus)>>, status: PortStatus, port: u16)
    ensures
        count(ports_with(probe_results(ended), status), |p: u16| p == port) == count(
            ended,
            reports(port, status),
        ),
        ports_with(probe_results(ended), status).len() == count(
            ended,
            |e: Option<(u16, PortStatus)>|
                match e {
                    Some((_, s)) => s == status,
                    None => status == PortStatus::Filtered,
                },
        ),
    decreases ended.len(),
{
    let all = probe_results(ended);
    let same = |p: u16| p == port;
    if ended.len() > 0 {
        let init = ended.drop_last();
        lemma_counts(init, status, port);
        assert(probe_results(init) =~= all.drop_last());
        assert(all.last() == probe_result(ended.last()));
        let before = ports_with(all.drop_last(), status);
        if all.last().1 == status {
            assert(ports_with(all, status) =~= before.push(all.last().0));
            assert(ports_with(all, status).drop_last() =~= before);
        } else {
            assert(ports_with(all, status) =~= before);
        }
    }
}

proof fn lemma_count_filter<A>(s: Seq<A>, p: spec_fn(A) -> bool)
    ensures
        s.filter(p).len() == count(s, p),
{
    crate::laws::documents::lemma_filter_rank(s, p);
}

/// Each list has every port as often as a task reports it so; a task that did
/// not end well counts as a filtered port 0. The lists are in order, and the
/// entries of the open ports say nothing but the port and the protocol.
pub proof fn theorem_results(ended: Seq<Option<(u16, PortStatus)>>, is_udp: bool, port: u16)
    ensures
        ({
            let r = scan_results(probe_results(ended), is_udp);
            &&& count(r.open, |p: PortView| p.port == port) == count(
                ended,
                |e: Option<(u16, PortStatus)>| e == Some((port, PortStatus::Open)),
            )
            &&& count(r.filtered, |p: u16| p == port) == count(
                ended,
                |e: Option<(u16, PortStatus)>|
                    e == Some((port, PortStatus::Filtered)) || (e is None && port == 0),
            )
            &&& r.closed == count(
                ended,
                |e: Option<(u16, PortStatus)>| e matches Some((_, PortStatus::Closed)),
            )
            &&& forall|i: int, j: int|
                0 <= i <= j < r.open.len() ==> (#[trigger] r.open[i]).port <= (
                #[trigger] r.open[j]).port
            &&& forall|i: int, j: int|
                0 <= i <= j < r.filtered.len() ==> #[trigger] r.filtered[i]
                    <= #[trigger] r.filtered[j]
            &&& forall|i: int|
                0 <= i < r.open.len() ==> {
                    &&& (#[trigger] r.open[i]).protocol == if is_udp {
                        "udp"@
                    } else {
                        "tcp"@
                    }
                    &&& r.open[i].service.len() == 0
                    &&& r.open[i].product.len() == 0
                    &&& r.open[i].version.len() == 0
                }
        }),
{
    let all = probe_results(ended);
    let r = scan_results(all, is_udp);
    let open = ports_with(all, PortStatus::Open);
    let filtered = ports_with(all, PortStatus::Filtered);
    let same = |p: u16| p == port;
    lemma_counts(ended, PortStatus::Open, port);
    lemma_counts(ended, PortStatus::Filtered, port);
    lemma_counts(ended, PortStatus::Closed, port);
    sorting::theorem_sorted(open, port);
    sorting::theorem_sorted(filtered, port);
    assert(sorting::on_port::<u16>(port) =~= same);
    lemma_count_filter(open, same);
    lemma_count_filter(sorting::sorted(open), same);
    lemma_count_filter(filtered, same);
    lemma_count_filter(sorting::sorted(filtered), same);
    lemma_count_map(
        sorting::sorted(open),
        |p: u16| PortView::bare(p, is_udp),
        |p: PortView| p.port == port,
        same,
    );
    lemma_count_same(
        ended,
        reports(port, PortStatus::Open),
        |e: Option<(u16, PortStatus)>| e == Some((port, PortStatus::Open)),
    );
    lemma_count_same(
        ended,
        reports(port, PortStatus::Filtered),
        |e: Option<(u16, PortStatus)>|
            e == Some((port, PortStatus::Filtered)) || (e is None && port == 0),
    );
    lemma_count_same(
        ended,
        |e: Option<(u16, PortStatus)>|
            match e {
                Some((_, s)) => s == PortStatus::Closed,
                None => PortStatus::Closed == PortStatus::Filtered,
            },
        |e: Option<(u16, PortStatus)>| e matches Some((_, PortStatus::Closed)),
    );
    let so = sorting::sorted(open);
    let sf = sorting::sorted(filtered);
    assert forall|i: int, j: int| 0 <= i <= j < r.open.len() implies (#[trigger] r.open[i]).port
        <= (#[trigger] r.open[j]).port by {
        assert(so[i] == sorting::HasPort::port_key(so[i]));
        assert(so[j] == sorting::HasPort::port_key(so[j]));
    }
    assert forall|i: int, j: int| 0 <= i <= j < r.filtered.len() implies #[trigger] r.filtered[i]
        <= #[trigger] r.filtered[j] by {
        assert(sf[i] == sorting::HasPort::port_key(sf[i]));
        assert(sf[j] == sorting::HasPort::port_key(sf[j]));
    }
}

proof fn lemma_count_same<A>(s: Seq<A>, p: spec_fn(A) -> bool, q: spec_fn(A) -> bool)
    requires
        forall|a: A| #[trigger] p(a) == q(a),
    ensures
        count(s, p) == count(s, q),
    decreases s.len(),
{
    if s.len() > 0 {
        lemma_count_same(s.drop_last(), p, q);
        assert(p(s.last()) == q(s.last()));
    }
}

proof fn lemma_count_map<A, B>(
    s: Seq<A>,
    f: spec_fn(A) -> B,
    p: spec_fn(B) -> bool,
    q: spec_fn(A) -> bool,
)
    requires
        forall|a: A| p(#[trigger] f(a)) == q(a),
    ensures
        count(s.map_values(f), p) == count(s, q),
    decreases s.len(),
{
    if s.len() > 0 {
        lemma_count_map(s.drop_last(), f, p, q);
        assert(s.map_values(f).drop_last() =~= s.drop_last().map_values(f));
        assert(p(f(s.last())) == q(s.last()));
    }
}

} // verus!
