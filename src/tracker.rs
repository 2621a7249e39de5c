//! Device tracking: which devices get a session, and the registry of running
//! sessions keyed by device identity.
use crate::cli::{DeviceList, DeviceListUtil};
use vstd::prelude::*;

verus! {

/// The phone-side port that the app listens on.
pub const REMOTE_SERVICE_PORT: u16 = 23227;

/// Seconds a retired session may keep running before it is cancelled.
pub const ABORT_GRACE_SECS: u64 = 5;

/// Connectivity of a device as the device bridge reports it.
#[derive(Clone, Copy, Debug, PartialEq, Eq, Structural)]
pub enum Connectivity {
    Connected,
    Offline,
    /// Any other state (authorizing, unauthorized, ...): nothing to do.
    Other,
}

/// What the tracker does about one device notification.
#[derive(Clone, Copy, Debug, PartialEq, Eq, Structural)]
pub enum TrackerAction {
    /// Nothing.
    Ignore,
    /// Forward the service port to this local port and start a session.
    Connect(i32),
    /// Take the device's session out of the registry.
    Retire,
}

/// What the tracker does when `identity` reports `state`.
pub open spec fn tracker_action(port: Option<i32>, state: Connectivity) -> TrackerAction {
    match state {
        Connectivity::Connected => match port {
            Some(p) => TrackerAction::Connect(p),
            None => TrackerAction::Ignore,
        },
        Connectivity::Offline => TrackerAction::Retire,
        Connectivity::Other => TrackerAction::Ignore,
    }
}

/// Decides what a device notification calls for: a connected device with a
/// configured port gets a session on that port, a device without one never
/// does, and an offline device is retired.
pub fn decide(devices: &DeviceList, identity: &str, state: Connectivity) -> (r: TrackerAction)
    ensures
        r == tracker_action(devices.port_of(identity@), state),
{
    match state {
        Connectivity::Connected => match devices.get_port(identity) {
            Some(p) => TrackerAction::Connect(p),
            None => TrackerAction::Ignore,
        },
        Connectivity::Offline => TrackerAction::Retire,
        Connectivity::Other => TrackerAction::Ignore,
    }
}

/// A device without a configured port never gets a session, whatever state
/// it reports.
pub proof fn lemma_unconfigured_never_connects(state: Connectivity)
    ensures
        !(tracker_action(None, state) is Connect),
{
}

/// Running sessions keyed by device identity, at most one per identity.
pub struct SessionRegistry<H> {
    entries: Vec<(String, H)>,
}

/// No two entries share a key.
pub open spec fn unique_keys<H>(s: Seq<(String, H)>) -> bool {
    forall|i: int, j: int| 0 <= i < j < s.len() ==> s[i].0@ != s[j].0@
}

/// Where the entry with key `k` stands.
pub open spec fn key_index<H>(s: Seq<(String, H)>, k: Seq<char>) -> int {
    choose|i: int| 0 <= i < s.len() && s[i].0@ == k
}

/// The entries as a map from key to value.
pub open spec fn entries_view<H>(s: Seq<(String, H)>) -> Map<Seq<char>, H> {
    Map::new(
        |k: Seq<char>| exists|i: int| 0 <= i < s.len() && s[i].0@ == k,
        |k: Seq<char>| s[key_index(s, k)].1,
    )
}

proof fn lemma_entry<H>(s: Seq<(String, H)>, i: int)
    requires
        unique_keys(s),
        0 <= i < s.len(),
    ensures
        entries_view(s).contains_key(s[i].0@),
        entries_view(s)[s[i].0@] == s[i].1,
{
    let k = s[i].0@;
    assert(exists|j: int| 0 <= j < s.len() && s[j].0@ == k);
    assert(key_index(s, k) == i);
}

impl<H> SessionRegistry<H> {
    pub closed spec fn wf(&self) -> bool {
        unique_keys(self.entries@)
    }

    /// The sessions, by identity.
    pub closed spec fn view(&self) -> Map<Seq<char>, H> {
        entries_view(self.entries@)
    }

    /// An empty registry.
    pub fn new() -> (r: Self)
        ensures
            r.wf(),
            r.view() == Map::<Seq<char>, H>::empty(),
    {
        let r = SessionRegistry { entries: Vec::new() };
        assert(r.view() =~= Map::<Seq<char>, H>::empty());
        r
    }

    fn find(&self, id: &String) -> (r: Option<usize>)
        requires
            self.wf(),
        ensures
            r matches Some(i) ==> i < self.entries@.len() && self.entries@[i as int].0@ == id@,
            r is None ==> !self.view().contains_key(id@),
    {
        let mut i: usize = 0;
        while i < self.entries.len()
            invariant
                i <= self.entries@.len(),
                forall|j: int| 0 <= j < i ==> self.entries@[j].0@ != id@,
            decreases self.entries@.len() - i,
        {
            if self.entries[i].0 == *id {
                return Some(i);
            }
            i += 1;
        }
        None
    }

    /// Takes the session of `id` out of the registry and returns it. An
    /// identity with no session leaves the registry as it was.
    pub fn remove(&mut self, id: &str) -> (r: Option<H>)
        requires
            old(self).wf(),
        ensures
            final(self).wf(),
            final(self).view() == old(self).view().remove(id@),
            r == if old(self).view().contains_key(id@) {
                Some(old(self).view()[id@])
            } else {
                None
            },
            !old(self).view().contains_key(id@) ==> final(self).view() == old(self).view(),
    {
        let key = id.to_owned();
        match self.find(&key) {
            None => {
                assert(old(self).view().remove(id@) =~= old(self).view());
                None
            },
            Some(i) => {
                let ghost before = self.entries@;
                proof {
                    lemma_entry(self.entries@, i as int);
                }
                let (_, h) = self.entries.remove(i);
                proof {
                    let m = self.view();
                    let o = old(self).view().remove(id@);
                    assert forall|j: int, l: int|
                        0 <= j < l < self.entries@.len() implies self.entries@[j].0@
                        != self.entries@[l].0@ by {
                        if j >= i {
                            assert(self.entries@[j] == before[j + 1]);
                        }
                        if l >= i {
                            assert(self.entries@[l] == before[l + 1]);
                        }
                    }
                    assert forall|k: Seq<char>| #[trigger] m.contains_key(k) == o.contains_key(k)
                        by {
                        if m.contains_key(k) {
                            let j = key_index(self.entries@, k);
                            if j >= i {
                                assert(before[j + 1].0@ == k);
                            } else {
                                assert(before[j].0@ == k);
                            }
                            assert(k != id@);
                        }
                        if o.contains_key(k) {
                            let j = key_index(old(self).entries@, k);
                            assert(j != i);
                            if j > i {
                                assert(self.entries@[j - 1].0@ == k);
                            } else {
                                assert(self.entries@[j].0@ == k);
                            }
                        }
                    }
                    assert forall|k: Seq<char>| #[trigger] m.contains_key(k) implies m[k] == o[k]
                        by {
                        let j = key_index(self.entries@, k);
                        lemma_entry(self.entries@, j);
                        if j >= i {
                            lemma_entry(old(self).entries@, j + 1);
                        } else {
                            lemma_entry(old(self).entries@, j);
                        }
                    }
                    assert(m =~= o);
                }
                Some(h)
            },
        }
    }

    /// Registers the session of `id`, replacing and returning any session it
    /// had, without waiting for that one to stop.
    pub fn insert(&mut self, id: String, handle: H) -> (r: Option<H>)
        requires
            old(self).wf(),
        ensures
            final(self).wf(),
            final(self).view() == old(self).view().insert(id@, handle),
            r == if old(self).view().contains_key(id@) {
                Some(old(self).view()[id@])
            } else {
                None
            },
    {
        let prior = self.remove(id.as_str());
        let ghost mid = self.view();
        let ghost before = self.entries@;
        let ghost k = id@;
        proof {
            assert forall|j: int| 0 <= j < before.len() implies before[j].0@ != k by {
                if before[j].0@ == k {
                    lemma_entry(self.entries@, j);
                }
            }
        }
        self.entries.push((id, handle));
        proof {
            let n = before.len() as int;
            assert forall|j: int| 0 <= j < n implies self.entries@[j] == before[j] by {}
            let m = self.view();
            let o = mid.insert(k, handle);
            assert forall|q: Seq<char>| #[trigger] m.contains_key(q) == o.contains_key(q) by {
                if m.contains_key(q) {
                    let j = key_index(self.entries@, q);
                    if j < n {
                        assert(before[j].0@ == q);
                        assert(self.entries@[j] == before[j]);
                    }
                }
                if o.contains_key(q) && q != k {
                    assert(mid.contains_key(q));
                    let j = choose|j: int| 0 <= j < before.len() && before[j].0@ == q;
                    assert(self.entries@[j].0@ == q);
                }
                if q == k {
                    assert(self.entries@[n].0@ == k);
                }
            }
            assert forall|q: Seq<char>| #[trigger] m.contains_key(q) implies m[q] == o[q] by {
                let j = key_index(self.entries@, q);
                lemma_entry(self.entries@, j);
                if j < n {
                    assert(self.entries@[j] == before[j]);
                    assert(before[j].0@ == q);
                    assert(q != k);
                    lemma_entry(before, j);
                }
            }
            assert(m =~= o);
        }
        prior
    }

    /// Drops every session from the registry, whatever its state.
    pub fn clear(&mut self)
        ensures
            final(self).wf(),
            final(self).view() == Map::<Seq<char>, H>::empty(),
    {
        self.entries.clear();
        assert(self.view() =~= Map::<Seq<char>, H>::empty());
    }

}

} // verus!
