//! The services discovered so far, keyed by full instance name.

use vstd::prelude::*;

use crate::keyed::{keyed_map, lemma_keyed_map_dom, lemma_keyed_map_lookup, lemma_keyed_map_remove,
    lemma_keyed_map_update, unique_keys};
use crate::types::{DetailsView, DiscoveryServiceDetails};

verus! {

/// What is known of one discovered service: its details, and whether they
/// are the ones last reported (`fresh`) so that an unchanged sighting need
/// not be reported again.
pub struct RecordView {
    pub details: DetailsView,
    pub fresh: bool,
}

/// Whether the service in `r` was last seen more than `ttl` seconds before
/// `now`.
pub open spec fn is_expired(r: RecordView, now: u64, ttl: u64) -> bool {
    match r.details.last_seen {
        Some(t) => now - t > ttl,
        None => false,
    }
}

/// No service in `m` was seen after `now`.
pub open spec fn seen_by(m: Map<Seq<char>, RecordView>, now: u64) -> bool {
    forall|k: Seq<char>| #[trigger] m.contains_key(k) ==> match m[k].details.last_seen {
        Some(t) => t <= now,
        None => true,
    }
}

/// The names of the services in `m` that have expired at `now`.
pub open spec fn expired_names(m: Map<Seq<char>, RecordView>, now: u64, ttl: u64) -> Set<Seq<char>> {
    Set::new(|k: Seq<char>| m.contains_key(k) && is_expired(m[k], now, ttl))
}

/// The record of a service whose details were reported again or are marked
/// as needing a new report.
pub open spec fn stale(r: RecordView) -> RecordView {
    RecordView { details: r.details, fresh: false }
}

struct ServiceRecord {
    details: DiscoveryServiceDetails,
    fresh: bool,
}

spec fn entry_view(r: ServiceRecord) -> (Seq<char>, RecordView) {
    (r.details.instance_name@, RecordView { details: r.details@, fresh: r.fresh })
}

/// The discovered services; no instance name occurs twice.
pub struct ServiceRegistry {
    entries: Vec<ServiceRecord>,
}

impl View for ServiceRegistry {
    type V = Map<Seq<char>, RecordView>;

    closed spec fn view(&self) -> Map<Seq<char>, RecordView> {
        keyed_map(self.entries_view())
    }
}

impl ServiceRegistry {
    spec fn entries_view(&self) -> Seq<(Seq<char>, RecordView)> {
        self.entries@.map_values(|r: ServiceRecord| entry_view(r))
    }

    /// Instance names are distinct and every record's details are well formed.
    pub closed spec fn wf(&self) -> bool {
        &&& unique_keys(self.entries_view())
        &&& forall|i: int| 0 <= i < self.entries@.len() ==> (#[trigger] self.entries@[i]).details.wf()
    }

    /// Each service is recorded under its own instance name.
    pub proof fn lemma_keys(&self)
        requires
            self.wf(),
        ensures
            forall|k: Seq<char>| #[trigger] self@.contains_key(k) ==> self@[k].details.instance_name == k,
    {
        assert forall|k: Seq<char>| #[trigger] self@.contains_key(k) implies self@[k].details.instance_name
            == k by {
            self.lemma_find_view(k);
        }
    }

    proof fn lemma_find_view(&self, k: Seq<char>)
        requires
            self.wf(),
            self@.contains_key(k),
        ensures
            exists|i: int|
                0 <= i < self.entries@.len() && #[trigger] self.entries@[i].details.instance_name@ == k
                    && self@[k] == entry_view(self.entries@[i]).1,
            self@[k].details.instance_name == k,
    {
        lemma_keyed_map_dom(self.entries_view(), k);
        let i = choose|i: int| 0 <= i < self.entries_view().len() && self.entries_view()[i].0 == k;
        lemma_keyed_map_lookup(self.entries_view(), i);
        assert(self.entries@[i].details.instance_name@ == k);
    }

    /// No service is known.
    pub fn new() -> (r: ServiceRegistry)
        ensures
            r.wf(),
            r@ == Map::<Seq<char>, RecordView>::empty(),
    {
        let r = ServiceRegistry { entries: Vec::new() };
        proof {
            assert(r.entries_view() =~= Seq::empty());
        }
        r
    }

    fn find(&self, name: &String) -> (res: Option<usize>)
        requires
            self.wf(),
        ensures
            match res {
                Some(j) => j < self.entries@.len() && self.entries@[j as int].details.instance_name@ == name@
                    && self@.contains_key(name@) && self@[name@] == entry_view(self.entries@[j as int]).1,
                None => !self@.contains_key(name@),
            },
    {
        let mut i: usize = 0;
        while i < self.entries.len()
            invariant
                i <= self.entries.len(),
                self.wf(),
                forall|j: int| 0 <= j < i ==> self.entries@[j].details.instance_name@ != name@,
            decreases self.entries.len() - i,
        {
            if self.entries[i].details.instance_name == *name {
                proof {
                    assert(self.entries_view()[i as int].0 == name@);
                    lemma_keyed_map_lookup(self.entries_view(), i as int);
                }
                return Some(i);
            }
            i = i + 1;
        }
        proof {
            lemma_keyed_map_dom(self.entries_view(), name@);
            if self@.contains_key(name@) {
                let j = choose|j: int| 0 <= j < self.entries_view().len() && self.entries_view()[j].0 == name@;
                assert(self.entries@[j].details.instance_name@ == name@);
            }
        }
        None
    }

    /// A copy of the details recorded for `name`, if any.
    pub fn get(&self, name: &String) -> (res: Option<DiscoveryServiceDetails>)
        requires
            self.wf(),
        ensures
            match res {
                Some(d) => self@.contains_key(name@) && d@ == self@[name@].details && d.wf(),
                None => !self@.contains_key(name@),
            },
    {
        match self.find(name) {
            Some(j) => Some(self.entries[j].details.duplicate()),
            None => None,
        }
    }

    /// Number of known services.
    pub fn len(&self) -> (n: usize)
        requires
            self.wf(),
        ensures
            n == self@.len(),
    {
        proof {
            self.lemma_len();
        }
        self.entries.len()
    }

    proof fn lemma_len(&self)
        requires
            self.wf(),
        ensures
            self@.len() == self.entries@.len(),
        decreases self.entries@.len(),
    {
        lemma_unique_keyed_len(self.entries_view());
    }

    /// Records that the service `d` was seen, with `d` as the details last
    /// reported. Returns whether the sighting is news: the service was unknown,
    /// its details changed in anything but `last_seen`, or its details were
    /// marked as needing a new report.
    pub fn record_seen(&mut self, d: DiscoveryServiceDetails) -> (news: bool)
        requires
            old(self).wf(),
            d.wf(),
        ensures
            final(self).wf(),
            final(self)@ == old(self)@.insert(d@.instance_name, RecordView { details: d@, fresh: true }),
            news == !(old(self)@.contains_key(d@.instance_name) && old(self)@[d@.instance_name].fresh
                && old(self)@[d@.instance_name].details.same_content(d@)),
    {
        let ghost ev = self.entries_view();
        match self.find(&d.instance_name) {
            Some(j) => {
                let news = !(self.entries[j].fresh && self.entries[j].details.same_content(&d));
                proof {
                    lemma_keyed_map_update(ev, j as int, RecordView { details: d@, fresh: true });
                }
                self.entries.set(j, ServiceRecord { details: d, fresh: true });
                proof {
                    assert(self.entries_view() =~= ev.update(j as int, (ev[j as int].0, RecordView { details: d@, fresh: true })));
                }
                news
            },
            None => {
                let ghost e = ServiceRecord { details: d, fresh: true };
                self.entries.push(ServiceRecord { details: d, fresh: true });
                proof {
                    let nv = self.entries_view();
                    assert(nv =~= ev.push(entry_view(e)));
                    assert(nv.drop_last() =~= ev);
                    lemma_keyed_map_dom(ev, d@.instance_name);
                    assert forall|a: int, b: int| 0 <= a < b < nv.len() implies nv[a].0 != nv[b].0 by {
                        if b == nv.len() - 1 {
                            assert(ev[a].0 != d@.instance_name);
                        } else {
                            assert(ev[a] == nv[a]);
                            assert(ev[b] == nv[b]);
                        }
                    }
                }
                true
            },
        }
    }

    /// Forgets the service `name`.
    pub fn remove(&mut self, name: &String)
        requires
            old(self).wf(),
        ensures
            final(self).wf(),
            final(self)@ == old(self)@.remove(name@),
    {
        let ghost ev = self.entries_view();
        match self.find(name) {
            Some(j) => {
                proof {
                    lemma_keyed_map_remove(ev, j as int);
                }
                let _ = self.entries.remove(j);
                proof {
                    assert(self.entries_view() =~= ev.remove(j as int));
                }
            },
            None => {
                proof {
                    assert(self@ =~= old(self)@.remove(name@));
                }
            },
        }
    }

    /// Copies of the details of all known services, each once, after which
    /// every service is marked as needing a new report.
    pub fn snapshot_for_refresh(&mut self) -> (res: Vec<DiscoveryServiceDetails>)
        requires
            old(self).wf(),
        ensures
            final(self).wf(),
            final(self)@ == old(self)@.map_values(|r: RecordView| stale(r)),
            forall|i: int| 0 <= i < res@.len() ==> (#[trigger] res@[i]).wf()
                && old(self)@.contains_key(res@[i]@.instance_name)
                && res@[i]@ == old(self)@[res@[i]@.instance_name].details,
            forall|i: int, j: int| 0 <= i < j < res@.len() ==> res@[i]@.instance_name != res@[j]@.instance_name,
            forall|k: Seq<char>| #[trigger] old(self)@.contains_key(k) ==> exists|i: int| 0 <= i < res@.len()
                && res@[i]@.instance_name == k,
    {
        let ghost ev0 = self.entries_view();
        let mut res: Vec<DiscoveryServiceDetails> = Vec::new();
        let mut i: usize = 0;
        while i < self.entries.len()
            invariant
                i <= self.entries.len(),
                self.wf(),
                self.entries@.len() == ev0.len(),
                unique_keys(ev0),
                res@.len() == i,
                forall|j: int| 0 <= j < ev0.len() ==> #[trigger] self.entries_view()[j].0 == ev0[j].0,
                forall|j: int| 0 <= j < i ==> #[trigger] self.entries_view()[j].1 == stale(ev0[j].1),
                forall|j: int| i <= j < ev0.len() ==> #[trigger] self.entries_view()[j] == ev0[j],
                forall|j: int| 0 <= j < i ==> (#[trigger] res@[j]).wf() && res@[j]@ == ev0[j].1.details
                    && res@[j]@.instance_name == ev0[j].0,
            decreases self.entries.len() - i,
        {
            let copy = self.entries[i].details.duplicate();
            let replacement = self.entries[i].details.duplicate();
            let ghost evi = self.entries_view();
            proof {
                assert(evi[i as int] == ev0[i as int]);
                lemma_keyed_map_update(evi, i as int, stale(ev0[i as int].1));
            }
            self.entries.set(i, ServiceRecord { details: replacement, fresh: false });
            proof {
                assert(self.entries_view() =~= evi.update(i as int, (evi[i as int].0, stale(ev0[i as int].1))));
            }
            res.push(copy);
            i = i + 1;
        }
        proof {
            let ev1 = self.entries_view();
            assert forall|k: Seq<char>| #[trigger] old(self)@.contains_key(k) implies exists|i: int| 0 <= i < res@.len()
                && res@[i]@.instance_name == k by {
                lemma_keyed_map_dom(ev0, k);
                let j = choose|j: int| 0 <= j < ev0.len() && ev0[j].0 == k;
                assert(res@[j]@.instance_name == k);
            }
            assert forall|i: int| 0 <= i < res@.len() implies old(self)@.contains_key(res@[i]@.instance_name)
                && res@[i]@ == old(self)@[res@[i]@.instance_name].details by {
                lemma_keyed_map_lookup(ev0, i);
            }
            assert forall|k: Seq<char>| self@.contains_key(k) <==> old(self)@.contains_key(k) by {
                lemma_keyed_map_dom(ev0, k);
                lemma_keyed_map_dom(ev1, k);
                if exists|j: int| 0 <= j < ev0.len() && ev0[j].0 == k {
                    let j = choose|j: int| 0 <= j < ev0.len() && ev0[j].0 == k;
                    assert(ev1[j].0 == k);
                }
                if exists|j: int| 0 <= j < ev1.len() && ev1[j].0 == k {
                    let j = choose|j: int| 0 <= j < ev1.len() && ev1[j].0 == k;
                    assert(ev0[j].0 == k);
                }
            }
            assert forall|k: Seq<char>| self@.contains_key(k) implies self@[k] == stale(old(self)@[k]) by {
                lemma_keyed_map_dom(ev1, k);
                let j = choose|j: int| 0 <= j < ev1.len() && ev1[j].0 == k;
                lemma_keyed_map_lookup(ev1, j);
                lemma_keyed_map_lookup(ev0, j);
            }
            assert(self@ =~= old(self)@.map_values(|r: RecordView| stale(r)));
        }
        res
    }

    /// The names of the services that have expired at `now`, each once, in
    /// registry order.
    fn expired(&self, now: u64, ttl: u64) -> (res: Vec<String>)
        requires
            self.wf(),
            seen_by(self@, now),
        ensures
            forall|i: int, j: int| 0 <= i < j < res@.len() ==> res@[i]@ != res@[j]@,
            forall|k: Seq<char>|
                (exists|i: int| 0 <= i < res@.len() && #[trigger] res@[i]@ == k) <==> expired_names(
                    self@,
                    now,
                    ttl,
                ).contains(k),
    {
        let ghost ev = self.entries_view();
        let mut res: Vec<String> = Vec::new();
        let mut i: usize = 0;
        while i < self.entries.len()
            invariant
                i <= self.entries.len(),
                self.wf(),
                ev == self.entries_view(),
                seen_by(self@, now),
                forall|a: int, b: int| 0 <= a < b < res@.len() ==> res@[a]@ != res@[b]@,
                forall|a: int| #![trigger res@[a]] 0 <= a < res@.len() ==> exists|j: int| 0 <= j < i && #[trigger] ev[j].0 == res@[a]@
                    && is_expired(ev[j].1, now, ttl),
                forall|j: int| #![trigger ev[j]] 0 <= j < i && is_expired(ev[j].1, now, ttl) ==> exists|a: int| 0 <= a < res@.len()
                    && #[trigger] res@[a]@ == ev[j].0,
            decreases self.entries.len() - i,
        {
            proof {
                lemma_keyed_map_lookup(ev, i as int);
            }
            let expired = match self.entries[i].details.last_seen {
                Some(t) => now - t > ttl,
                None => false,
            };
            if expired {
                let ghost before = res@;
                res.push(self.entries[i].details.instance_name.clone());
                proof {
                    assert forall|a: int, b: int| 0 <= a < b < res@.len() implies res@[a]@ != res@[b]@ by {
                        if b == res@.len() - 1 {
                            let j = choose|j: int| 0 <= j < i && #[trigger] ev[j].0 == before[a]@ && is_expired(ev[j].1, now, ttl);
                            assert(ev[j].0 != ev[i as int].0);
                        } else {
                            assert(res@[a] == before[a]);
                            assert(res@[b] == before[b]);
                        }
                    }
                    assert forall|a: int| #![trigger res@[a]] 0 <= a < res@.len() implies exists|j: int| 0 <= j < i + 1 && #[trigger] ev[j].0 == res@[a]@
                        && is_expired(ev[j].1, now, ttl) by {
                        if a == res@.len() - 1 {
                            assert(ev[i as int].0 == res@[a]@);
                        } else {
                            assert(res@[a] == before[a]);
                        }
                    }
                    assert forall|j: int| #![trigger ev[j]] 0 <= j < i + 1 && is_expired(ev[j].1, now, ttl) implies exists|a: int| 0 <= a < res@.len()
                        && #[trigger] res@[a]@ == ev[j].0 by {
                        if j == i {
                            assert(res@[res@.len() - 1]@ == ev[j].0);
                        } else {
                            let a = choose|a: int| 0 <= a < before.len() && #[trigger] before[a]@ == ev[j].0;
                            assert(res@[a] == before[a]);
                        }
                    }
                }
            }
            i = i + 1;
        }
        proof {
            assert forall|k: Seq<char>|
                (exists|i: int| 0 <= i < res@.len() && #[trigger] res@[i]@ == k) <==> expired_names(
                    self@,
                    now,
                    ttl,
                ).contains(k) by {
                lemma_keyed_map_dom(ev, k);
                if exists|i: int| 0 <= i < res@.len() && #[trigger] res@[i]@ == k {
                    let a = choose|a: int| 0 <= a < res@.len() && #[trigger] res@[a]@ == k;
                    let j = choose|j: int| 0 <= j < ev.len() && #[trigger] ev[j].0 == res@[a]@ && is_expired(ev[j].1, now, ttl);
                    lemma_keyed_map_lookup(ev, j);
                }
                if expired_names(self@, now, ttl).contains(k) {
                    let j = choose|j: int| 0 <= j < ev.len() && ev[j].0 == k;
                    lemma_keyed_map_lookup(ev, j);
                }
            }
        }
        res
    }

    /// Forgets every service that has expired at `now` and returns their
    /// names, each once.
    pub fn remove_expired(&mut self, now: u64, ttl: u64) -> (res: Vec<String>)
        requires
            old(self).wf(),
            seen_by(old(self)@, now),
        ensures
            final(self).wf(),
            final(self)@ == old(self)@.remove_keys(expired_names(old(self)@, now, ttl)),
            forall|i: int, j: int| 0 <= i < j < res@.len() ==> res@[i]@ != res@[j]@,
            forall|k: Seq<char>|
                (exists|i: int| 0 <= i < res@.len() && #[trigger] res@[i]@ == k) <==> expired_names(
                    old(self)@,
                    now,
                    ttl,
                ).contains(k),
    {
        let names = self.expired(now, ttl);
        let ghost m0 = self@;
        let mut i: usize = 0;
        while i < names.len()
            invariant
                i <= names.len(),
                self.wf(),
                self@ == m0.remove_keys(Set::new(|k: Seq<char>| exists|a: int| 0 <= a < i && names@[a]@ == k)),
            decreases names.len() - i,
        {
            let ghost before = self@;
            self.remove(&names[i]);
            proof {
                assert(self@ =~= m0.remove_keys(Set::new(|k: Seq<char>| exists|a: int| 0 <= a < i + 1 && names@[a]@ == k)));
            }
            i = i + 1;
        }
        proof {
            assert(self@ =~= m0.remove_keys(expired_names(m0, now, ttl)));
        }
        names
    }

    /// Whether no known service was seen after `now`.
    pub fn all_seen_by(&self, now: u64) -> (res: bool)
        requires
            self.wf(),
        ensures
            res == seen_by(self@, now),
    {
        let ghost ev = self.entries_view();
        let mut i: usize = 0;
        while i < self.entries.len()
            invariant
                i <= self.entries.len(),
                self.wf(),
                ev == self.entries_view(),
                forall|j: int| 0 <= j < i ==> match (#[trigger] ev[j]).1.details.last_seen {
                    Some(t) => t <= now,
                    None => true,
                },
            decreases self.entries.len() - i,
        {
            let ok = match self.entries[i].details.last_seen {
                Some(t) => t <= now,
                None => true,
            };
            if !ok {
                proof {
                    lemma_keyed_map_lookup(ev, i as int);
                }
                return false;
            }
            i = i + 1;
        }
        proof {
            assert forall|k: Seq<char>| #[trigger] self@.contains_key(k) implies match self@[k].details.last_seen {
                Some(t) => t <= now,
                None => true,
            } by {
                lemma_keyed_map_dom(ev, k);
                let j = choose|j: int| 0 <= j < ev.len() && ev[j].0 == k;
                lemma_keyed_map_lookup(ev, j);
            }
        }
        true
    }
}

/// With unique keys, the map has one key per entry.
proof fn lemma_unique_keyed_len<V>(s: Seq<(Seq<char>, V)>)
    requires
        unique_keys(s),
    ensures
        keyed_map(s).len() == s.len(),
        keyed_map(s).dom().finite(),
    decreases s.len(),
{
    if s.len() > 0 {
        let t = s.drop_last();
        assert(unique_keys(t));
        lemma_unique_keyed_len(t);
        lemma_keyed_map_dom(t, s.last().0);
        if keyed_map(t).contains_key(s.last().0) {
            let i = choose|i: int| 0 <= i < t.len() && t[i].0 == s.last().0;
            assert(s[i].0 == s[s.len() - 1].0);
        }
    }
}

} // verus!
