//! Building service details from a resolved service, and comparing them.

use vstd::prelude::*;

use crate::keyed::{keyed_map, lemma_keyed_map_dom, lemma_keyed_map_lookup, lemma_keyed_map_update, unique_keys};
use crate::types::{
    opt_str_view, pairs_view, DetailsView, DiscoveryServiceDetails, IpAddress, ResolvedService, ResolvedView,
    SocketAddress,
};

verus! {

/// Pairs each address with `port`.
pub open spec fn with_port(port: u16) -> spec_fn(IpAddress) -> SocketAddress {
    |a: IpAddress| SocketAddress { ip: a, port: port }
}

/// The details recorded for a resolved service seen at time `now`.
pub open spec fn resolved_details(r: ResolvedView, now: u64) -> DetailsView {
    DetailsView {
        service_type: r.ty_domain,
        instance_name: r.fullname,
        domain_name: ".local."@,
        host_name: Some(r.host),
        addresses: r.addresses,
        socket_addresses: r.addresses.map(with_port(r.port)),
        port: r.port,
        properties: r.properties,
        last_seen: Some(now),
    }
}

fn contains_ip(v: &Vec<IpAddress>, x: IpAddress) -> (res: bool)
    ensures
        res == v@.contains(x),
{
    let mut i: usize = 0;
    while i < v.len()
        invariant
            i <= v.len(),
            forall|j: int| 0 <= j < i ==> v@[j] != x,
        decreases v.len() - i,
    {
        if v[i] == x {
            return true;
        }
        i = i + 1;
    }
    false
}

fn contains_socket(v: &Vec<SocketAddress>, x: SocketAddress) -> (res: bool)
    ensures
        res == v@.contains(x),
{
    let mut i: usize = 0;
    while i < v.len()
        invariant
            i <= v.len(),
            forall|j: int| 0 <= j < i ==> v@[j] != x,
        decreases v.len() - i,
    {
        if v[i] == x {
            return true;
        }
        i = i + 1;
    }
    false
}

/// The distinct addresses of `input`, each once.
fn distinct_addresses(input: &Vec<IpAddress>) -> (out: Vec<IpAddress>)
    ensures
        out@.no_duplicates(),
        out@.to_set() == input@.to_set(),
{
    let mut out: Vec<IpAddress> = Vec::new();
    let mut i: usize = 0;
    while i < input.len()
        invariant
            i <= input.len(),
            out@.no_duplicates(),
            out@.to_set() == input@.take(i as int).to_set(),
        decreases input.len() - i,
    {
        let a = input[i];
        let ghost before = out@;
        if !contains_ip(&out, a) {
            out.push(a);
        }
        proof {
            let t0 = input@.take(i as int);
            let t1 = input@.take(i + 1);
            assert(t1 =~= t0.push(a));
            assert forall|x: IpAddress| out@.contains(x) <==> t1.contains(x) by {
                if out@.contains(x) {
                    let j = choose|j: int| 0 <= j < out@.len() && out@[j] == x;
                    if j < before.len() {
                        assert(before.contains(x));
                        assert(before.to_set().contains(x));
                        let k = choose|k: int| 0 <= k < t0.len() && t0[k] == x;
                        assert(t1[k] == x);
                    } else {
                        assert(t1[i as int] == x);
                    }
                }
                if t1.contains(x) {
                    let k = choose|k: int| 0 <= k < t1.len() && t1[k] == x;
                    if k < i {
                        assert(t0[k] == x);
                        assert(t0.to_set().contains(x));
                        assert(before.to_set().contains(x));
                        let j = choose|j: int| 0 <= j < before.len() && before[j] == x;
                        assert(out@[j] == x);
                    } else if before.contains(a) {
                        let j = choose|j: int| 0 <= j < before.len() && before[j] == a;
                        assert(out@[j] == x);
                    } else {
                        assert(out@[before.len() as int] == x);
                    }
                }
            }
            assert(out@.to_set() =~= t1.to_set());
        }
        i = i + 1;
    }
    proof {
        assert(input@.take(input.len() as int) =~= input@);
    }
    out
}

/// Each address of `addrs` paired with `port`, in order.
fn socket_addresses_of(addrs: &Vec<IpAddress>, port: u16) -> (out: Vec<SocketAddress>)
    requires
        addrs@.no_duplicates(),
    ensures
        out@.no_duplicates(),
        out@.to_set() == addrs@.to_set().map(with_port(port)),
{
    let mut out: Vec<SocketAddress> = Vec::new();
    let mut i: usize = 0;
    while i < addrs.len()
        invariant
            i <= addrs.len(),
            out@ == addrs@.take(i as int).map_values(with_port(port)),
        decreases addrs.len() - i,
    {
        out.push(SocketAddress { ip: addrs[i], port: port });
        proof {
            assert(out@ =~= addrs@.take(i + 1).map_values(with_port(port)));
        }
        i = i + 1;
    }
    proof {
        assert(addrs@.take(addrs.len() as int) =~= addrs@);
        addrs@.lemma_to_set_map_commutes(with_port(port));
        assert forall|a: int, b: int| 0 <= a < out@.len() && 0 <= b < out@.len() && a != b implies out@[a]
            != out@[b] by {
            assert(out@[a].ip == addrs@[a]);
            assert(out@[b].ip == addrs@[b]);
        }
    }
    out
}

/// Index of the entry with key `key`, if any.
fn find_key(v: &Vec<(String, String)>, key: &String) -> (res: Option<usize>)
    ensures
        match res {
            Some(j) => j < v@.len() && v@[j as int].0@ == key@,
            None => forall|j: int| 0 <= j < v@.len() ==> v@[j].0@ != key@,
        },
{
    let mut i: usize = 0;
    while i < v.len()
        invariant
            i <= v.len(),
            forall|j: int| 0 <= j < i ==> v@[j].0@ != key@,
        decreases v.len() - i,
    {
        if v[i].0 == *key {
            return Some(i);
        }
        i = i + 1;
    }
    None
}

/// The pairs of `input` with distinct keys, a later pair for a key replacing
/// an earlier one.
fn collect_properties(input: &Vec<(String, String)>) -> (out: Vec<(String, String)>)
    ensures
        unique_keys(pairs_view(out@)),
        keyed_map(pairs_view(out@)) == keyed_map(pairs_view(input@)),
{
    let mut out: Vec<(String, String)> = Vec::new();
    let mut i: usize = 0;
    proof {
        assert(pairs_view(input@.take(0)) =~= Seq::empty());
        assert(pairs_view(out@) =~= Seq::empty());
    }
    while i < input.len()
        invariant
            i <= input.len(),
            unique_keys(pairs_view(out@)),
            keyed_map(pairs_view(out@)) == keyed_map(pairs_view(input@.take(i as int))),
        decreases input.len() - i,
    {
        let k = input[i].0.clone();
        let v = input[i].1.clone();
        let ghost before = out@;
        proof {
            let p = pairs_view(input@.take(i + 1));
            assert(p.drop_last() =~= pairs_view(input@.take(i as int)));
            assert(p.last() == (k@, v@));
        }
        match find_key(&out, &k) {
            Some(j) => {
                proof {
                    lemma_keyed_map_update(pairs_view(before), j as int, v@);
                }
                out.set(j, (k, v));
                proof {
                    assert(pairs_view(out@) =~= pairs_view(before).update(
                        j as int,
                        (pairs_view(before)[j as int].0, v@),
                    ));
                }
            },
            None => {
                out.push((k, v));
                proof {
                    let pb = pairs_view(before);
                    let po = pairs_view(out@);
                    assert(po =~= pb.push((k@, v@)));
                    assert(po.drop_last() =~= pb);
                    assert forall|a: int, b: int| 0 <= a < b < po.len() implies po[a].0 != po[b].0 by {
                        if b == po.len() - 1 {
                            assert(before[a].0@ != k@);
                        } else {
                            assert(pb[a] == po[a]);
                            assert(pb[b] == po[b]);
                        }
                    }
                }
            },
        }
        i = i + 1;
    }
    proof {
        assert(input@.take(input.len() as int) =~= input@);
    }
    out
}

/// The details of service `r` seen at time `now`: its addresses without
/// repetition, each also paired with its port, and its properties with the
/// last value of each key.
pub fn details_from_resolved(r: &ResolvedService, now: u64) -> (d: DiscoveryServiceDetails)
    ensures
        d.wf(),
        d@ == resolved_details(r@, now),
{
    let addresses = distinct_addresses(&r.addresses);
    let socket_addresses = socket_addresses_of(&addresses, r.port);
    let properties = collect_properties(&r.properties);
    DiscoveryServiceDetails {
        service_type: r.ty_domain.clone(),
        instance_name: r.fullname.clone(),
        domain_name: ".local.".to_owned(),
        host_name: Some(r.host.clone()),
        addresses,
        socket_addresses,
        port: r.port,
        properties,
        last_seen: Some(now),
    }
}

/// Every address of `a` is in `b`.
fn ips_included(a: &Vec<IpAddress>, b: &Vec<IpAddress>) -> (res: bool)
    ensures
        res == a@.to_set().subset_of(b@.to_set()),
{
    let mut i: usize = 0;
    while i < a.len()
        invariant
            i <= a.len(),
            forall|j: int| 0 <= j < i ==> b@.contains(#[trigger] a@[j]),
        decreases a.len() - i,
    {
        if !contains_ip(b, a[i]) {
            proof {
                assert(a@.to_set().contains(a@[i as int]));
            }
            return false;
        }
        i = i + 1;
    }
    proof {
        assert forall|x: IpAddress| a@.to_set().contains(x) implies b@.to_set().contains(x) by {
            let j = choose|j: int| 0 <= j < a@.len() && a@[j] == x;
        }
    }
    true
}

/// Every socket address of `a` is in `b`.
fn sockets_included(a: &Vec<SocketAddress>, b: &Vec<SocketAddress>) -> (res: bool)
    ensures
        res == a@.to_set().subset_of(b@.to_set()),
{
    let mut i: usize = 0;
    while i < a.len()
        invariant
            i <= a.len(),
            forall|j: int| 0 <= j < i ==> b@.contains(#[trigger] a@[j]),
        decreases a.len() - i,
    {
        if !contains_socket(b, a[i]) {
            proof {
                assert(a@.to_set().contains(a@[i as int]));
            }
            return false;
        }
        i = i + 1;
    }
    proof {
        assert forall|x: SocketAddress| a@.to_set().contains(x) implies b@.to_set().contains(x) by {
            let j = choose|j: int| 0 <= j < a@.len() && a@[j] == x;
        }
    }
    true
}

/// Map `a` is contained in map `b`: each key of `a` is in `b` with the same
/// value.
pub open spec fn map_included(a: Map<Seq<char>, Seq<char>>, b: Map<Seq<char>, Seq<char>>) -> bool {
    forall|k: Seq<char>| #[trigger] a.contains_key(k) ==> b.contains_key(k) && b[k] == a[k]
}

/// Each property of `a` is a property of `b`, with the same value.
fn properties_included(a: &Vec<(String, String)>, b: &Vec<(String, String)>) -> (res: bool)
    requires
        unique_keys(pairs_view(a@)),
        unique_keys(pairs_view(b@)),
    ensures
        res == map_included(keyed_map(pairs_view(a@)), keyed_map(pairs_view(b@))),
{
    let ghost pa = pairs_view(a@);
    let ghost pb = pairs_view(b@);
    let mut i: usize = 0;
    while i < a.len()
        invariant
            i <= a.len(),
            pa == pairs_view(a@),
            pb == pairs_view(b@),
            unique_keys(pa),
            unique_keys(pb),
            forall|j: int|
                0 <= j < i ==> keyed_map(pb).contains_key(#[trigger] pa[j].0) && keyed_map(pb)[pa[j].0]
                    == pa[j].1,
        decreases a.len() - i,
    {
        proof {
            lemma_keyed_map_lookup(pa, i as int);
        }
        match find_key(b, &a[i].0) {
            Some(j) => {
                proof {
                    lemma_keyed_map_lookup(pb, j as int);
                }
                if b[j].1 != a[i].1 {
                    return false;
                }
            },
            None => {
                proof {
                    lemma_keyed_map_dom(pb, pa[i as int].0);
                    if keyed_map(pb).contains_key(pa[i as int].0) {
                        let j = choose|j: int| 0 <= j < pb.len() && pb[j].0 == pa[i as int].0;
                        assert(b@[j].0@ == a@[i as int].0@);
                    }
                }
                return false;
            },
        }
        i = i + 1;
    }
    proof {
        assert forall|k: Seq<char>| #[trigger] keyed_map(pa).contains_key(k) implies keyed_map(pb).contains_key(k)
            && keyed_map(pb)[k] == keyed_map(pa)[k] by {
            lemma_keyed_map_dom(pa, k);
            let j = choose|j: int| 0 <= j < pa.len() && pa[j].0 == k;
            lemma_keyed_map_lookup(pa, j);
        }
    }
    true
}

fn same_opt_str(a: &Option<String>, b: &Option<String>) -> (res: bool)
    ensures
        res == (opt_str_view(*a) == opt_str_view(*b)),
{
    match (a, b) {
        (Some(x), Some(y)) => *x == *y,
        (None, None) => true,
        _ => false,
    }
}

impl DiscoveryServiceDetails {
    /// Whether `self` and `other` agree in everything but `last_seen`.
    pub fn same_content(&self, other: &DiscoveryServiceDetails) -> (res: bool)
        requires
            self.wf(),
            other.wf(),
        ensures
            res == self@.same_content(other@),
    {
        let addresses_equal = ips_included(&self.addresses, &other.addresses) && ips_included(
            &other.addresses,
            &self.addresses,
        );
        let sockets_equal = sockets_included(&self.socket_addresses, &other.socket_addresses)
            && sockets_included(&other.socket_addresses, &self.socket_addresses);
        let properties_equal = properties_included(&self.properties, &other.properties)
            && properties_included(&other.properties, &self.properties);
        proof {
            if addresses_equal {
                assert(self@.addresses =~= other@.addresses);
            }
            if sockets_equal {
                assert(self@.socket_addresses =~= other@.socket_addresses);
            }
            if properties_equal {
                assert(self@.properties =~= other@.properties);
            }
        }
        self.service_type == other.service_type && self.instance_name == other.instance_name
            && self.domain_name == other.domain_name && same_opt_str(
            &self.host_name,
            &other.host_name,
        ) && addresses_equal && sockets_equal && self.port == other.port && properties_equal
    }

    /// A copy of the details.
    pub fn duplicate(&self) -> (res: DiscoveryServiceDetails)
        ensures
            res@ == self@,
            res.wf() == self.wf(),
    {
        let mut addresses: Vec<IpAddress> = Vec::new();
        let mut i: usize = 0;
        while i < self.addresses.len()
            invariant
                i <= self.addresses.len(),
                addresses@ == self.addresses@.take(i as int),
            decreases self.addresses.len() - i,
        {
            addresses.push(self.addresses[i]);
            proof {
                assert(addresses@ =~= self.addresses@.take(i + 1));
            }
            i = i + 1;
        }
        let mut socket_addresses: Vec<SocketAddress> = Vec::new();
        let mut i: usize = 0;
        while i < self.socket_addresses.len()
            invariant
                i <= self.socket_addresses.len(),
                socket_addresses@ == self.socket_addresses@.take(i as int),
            decreases self.socket_addresses.len() - i,
        {
            socket_addresses.push(self.socket_addresses[i]);
            proof {
                assert(socket_addresses@ =~= self.socket_addresses@.take(i + 1));
            }
            i = i + 1;
        }
        let mut properties: Vec<(String, String)> = Vec::new();
        let mut i: usize = 0;
        while i < self.properties.len()
            invariant
                i <= self.properties.len(),
                properties@.len() == i,
                pairs_view(properties@) == pairs_view(self.properties@.take(i as int)),
            decreases self.properties.len() - i,
        {
            let ghost before = properties@;
            properties.push((self.properties[i].0.clone(), self.properties[i].1.clone()));
            proof {
                let t0 = self.properties@.take(i as int);
                let t1 = self.properties@.take(i + 1);
                assert forall|j: int| 0 <= j < t1.len() implies #[trigger] pairs_view(properties@)[j]
                    == pairs_view(t1)[j] by {
                    if j < i {
                        assert(pairs_view(before)[j] == pairs_view(t0)[j]);
                        assert(properties@[j] == before[j]);
                        assert(t1[j] == t0[j]);
                    }
                }
                assert(pairs_view(properties@) =~= pairs_view(t1));
            }
            i = i + 1;
        }
        proof {
            assert(addresses@ =~= self.addresses@);
            assert(socket_addresses@ =~= self.socket_addresses@);
            assert(self.properties@.take(self.properties@.len() as int) =~= self.properties@);
        }
        let host_name = match &self.host_name {
            Some(h) => Some(h.clone()),
            None => None,
        };
        DiscoveryServiceDetails {
            service_type: self.service_type.clone(),
            instance_name: self.instance_name.clone(),
            domain_name: self.domain_name.clone(),
            host_name,
            addresses,
            socket_addresses,
            port: self.port,
            properties,
            last_seen: self.last_seen,
        }
    }
}

} // verus!
