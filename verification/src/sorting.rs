//! Sorting by port number. The sort is stable.

use vstd::prelude::*;

verus! {

/// Something that belongs to a port.
pub trait HasPort: Sized {
    /// The port.
    spec fn port_key(self) -> u16;
}

/// A value that can tell its port.
pub trait PortNumber: HasPort {
    /// The port.
    fn port_number(&self) -> (r: u16)
        ensures
            r == self.port_key(),
    ;
}

impl HasPort for u16 {
    open spec fn port_key(self) -> u16 {
        self
    }
}

impl PortNumber for u16 {
    fn port_number(&self) -> (r: u16) {
        *self
    }
}

/// `s` with `x` behind everything whose port is not higher.
pub open spec fn placed<A: HasPort>(s: Seq<A>, x: A) -> Seq<A>
    decreases s.len(),
{
    if s.len() == 0 || s.last().port_key() <= x.port_key() {
        s.push(x)
    } else {
        placed(s.drop_last(), x).push(s.last())
    }
}

/// `s` sorted by port; equal ports keep their order.
pub open spec fn sorted<A: HasPort>(s: Seq<A>) -> Seq<A>
    decreases s.len(),
{
    if s.len() == 0 {
        s
    } else {
        placed(sorted(s.drop_last()), s.last())
    }
}

/// No port stands before a lower one.
pub open spec fn ordered<A: HasPort>(s: Seq<A>) -> bool {
    forall|i: int, j: int| 0 <= i <= j < s.len() ==> s[i].port_key() <= s[j].port_key()
}

/// Belonging to one port.
pub open spec fn on_port<A: HasPort>(port: u16) -> spec_fn(A) -> bool {
    |x: A| x.port_key() == port
}

/// The entries of one port.
pub open spec fn of_port<A: HasPort>(s: Seq<A>, port: u16) -> Seq<A> {
    s.filter(on_port(port))
}

proof fn lemma_placed<A: HasPort>(s: Seq<A>, x: A, port: u16)
    requires
        ordered(s),
    ensures
        ordered(placed(s, x)),
        placed(s, x).len() == s.len() + 1,
        placed(s, x).last().port_key() == x.port_key() || (s.len() > 0
            && placed(s, x).last().port_key() == s.last().port_key()),
        placed(s, x).to_multiset() == s.to_multiset().insert(x),
        of_port(placed(s, x), port) == of_port(s.push(x), port),
    decreases s.len(),
{
    broadcast use vstd::seq_lib::group_to_multiset_ensures;

    let p = on_port::<A>(port);
    if s.len() > 0 && s.last().port_key() > x.port_key() {
        let init = s.drop_last();
        let last = s.last();
        lemma_placed(init, x, port);
        let mid = placed(init, x);
        assert(s =~= init.push(last));
        mid.lemma_filter_push(last, p);
        init.lemma_filter_push(x, p);
        init.lemma_filter_push(last, p);
        s.lemma_filter_push(x, p);
    }
}

/// Sorting puts the ports in order, keeps every entry, and keeps the order of
/// the entries of one port.
pub proof fn theorem_sorted<A: HasPort>(s: Seq<A>, port: u16)
    ensures
        ordered(sorted(s)),
        sorted(s).len() == s.len(),
        sorted(s).to_multiset() == s.to_multiset(),
        of_port(sorted(s), port) == of_port(s, port),
    decreases s.len(),
{
    broadcast use vstd::seq_lib::group_to_multiset_ensures;

    if s.len() > 0 {
        let init = s.drop_last();
        theorem_sorted(init, port);
        lemma_placed(sorted(init), s.last(), port);
        assert(s =~= init.push(s.last()));
        let p = on_port::<A>(port);
        init.lemma_filter_push(s.last(), p);
        sorted(init).lemma_filter_push(s.last(), p);
    }
}

/// What is in order stays as it is.
pub proof fn theorem_ordered_is_sorted<A: HasPort>(s: Seq<A>)
    requires
        ordered(s),
    ensures
        sorted(s) == s,
    decreases s.len(),
{
    if s.len() > 0 {
        theorem_ordered_is_sorted(s.drop_last());
    }
}

/// Sorting twice is sorting once.
pub proof fn theorem_sorted_again<A: HasPort>(s: Seq<A>)
    ensures
        sorted(sorted(s)) == sorted(s),
{
    theorem_sorted(s, 0);
    theorem_ordered_is_sorted(sorted(s));
}

proof fn lemma_placed_map<A: HasPort, B: HasPort>(s: Seq<A>, x: A, f: spec_fn(A) -> B)
    requires
        forall|a: A| (#[trigger] f(a)).port_key() == a.port_key(),
    ensures
        placed(s, x).map_values(f) == placed(s.map_values(f), f(x)),
    decreases s.len(),
{
    if s.len() > 0 && s.last().port_key() > x.port_key() {
        lemma_placed_map(s.drop_last(), x, f);
        assert(s.map_values(f).drop_last() =~= s.drop_last().map_values(f));
    }
}

/// Sorting commutes with a mapping that keeps the ports.
pub proof fn theorem_sorted_map<A: HasPort, B: HasPort>(s: Seq<A>, f: spec_fn(A) -> B)
    requires
        forall|a: A| (#[trigger] f(a)).port_key() == a.port_key(),
    ensures
        sorted(s).map_values(f) == sorted(s.map_values(f)),
    decreases s.len(),
{
    if s.len() > 0 {
        theorem_sorted_map(s.drop_last(), f);
        lemma_placed_map(sorted(s.drop_last()), s.last(), f);
        assert(s.map_values(f).drop_last() =~= s.drop_last().map_values(f));
    }
}

/// Where everything from `j` on has a higher port than `x` and what stands
/// before `j` has not, `j` is the place of `x`.
proof fn lemma_placed_at<A: HasPort>(s: Seq<A>, x: A, j: int)
    requires
        0 <= j <= s.len(),
        j > 0 ==> s[j - 1].port_key() <= x.port_key(),
        forall|i: int| j <= i < s.len() ==> s[i].port_key() > x.port_key(),
    ensures
        placed(s, x) == s.insert(j, x),
    decreases s.len(),
{
    if j < s.len() {
        lemma_placed_at(s.drop_last(), x, j);
    }
}

/// Sorts by port; equal ports keep their order.
pub fn sort_by_port<T: PortNumber>(v: Vec<T>) -> (r: Vec<T>)
    ensures
        r@ == sorted(v@),
{
    let ghost all = v@;
    let mut v = v;
    let mut rest: Vec<T> = Vec::new();
    while v.len() > 0
        invariant
            v@ + rest@.reverse() =~= all,
        decreases v@.len(),
    {
        if let Some(x) = v.pop() {
            rest.push(x);
        }
    }
    let mut out: Vec<T> = Vec::new();
    while rest.len() > 0
        invariant
            rest@.len() <= all.len(),
            all.skip(all.len() - rest@.len()) =~= rest@.reverse(),
            out@ == sorted(all.take(all.len() - rest@.len())),
        decreases rest@.len(),
    {
        let ghost done = all.len() - rest@.len();
        assert(all.skip(done)[0] == rest@.last());
        if let Some(x) = rest.pop() {
            let key = x.port_number();
            let mut j: usize = out.len();
            while j > 0 && out[j - 1].port_number() > key
                invariant
                    j <= out@.len(),
                    key == x.port_key(),
                    forall|i: int| j <= i < out@.len() ==> out@[i].port_key() > key,
                decreases j,
            {
                j -= 1;
            }
            proof {
                lemma_placed_at(out@, x, j as int);
                assert(all.take(done + 1).drop_last() =~= all.take(done));
                assert(all.skip(done + 1) =~= all.skip(done).skip(1));
            }
            out.insert(j, x);
        }
    }
    assert(all.take(all.len() as int) =~= all);
    out
}

} // verus!
