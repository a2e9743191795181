//! The registry of connected devices, keyed by device id.

use vstd::prelude::*;
use crate::protocol::DeviceInfo;
use crate::text::str_equals;

verus! {

/// The devices held in `s`, by id (a later entry for an id wins).
pub open spec fn map_of(s: Seq<DeviceInfo>) -> Map<Seq<char>, DeviceInfo>
    decreases s.len(),
{
    if s.len() == 0 {
        Map::empty()
    } else {
        map_of(s.drop_last()).insert(s.last().device_id@, s.last())
    }
}

/// No two entries share an id.
pub open spec fn ids_unique(s: Seq<DeviceInfo>) -> bool {
    forall|i: int, j: int| 0 <= i < j < s.len() ==> s[i].device_id@ != s[j].device_id@
}

/// Devices by id.
pub struct DeviceRegistry {
    devices: Vec<DeviceInfo>,
}

proof fn lemma_map_of_lookup(s: Seq<DeviceInfo>, i: int)
    requires
        ids_unique(s),
        0 <= i < s.len(),
    ensures
        map_of(s).dom().contains(s[i].device_id@),
        map_of(s)[s[i].device_id@] == s[i],
    decreases s.len(),
{
    if i < s.len() - 1 {
        let t = s.drop_last();
        assert(ids_unique(t));
        assert(t[i] == s[i]);
        lemma_map_of_lookup(t, i);
        assert(s.last().device_id@ != s[i].device_id@);
    }
}

proof fn lemma_map_of_absent(s: Seq<DeviceInfo>, k: Seq<char>)
    requires
        forall|i: int| 0 <= i < s.len() ==> s[i].device_id@ != k,
    ensures
        !map_of(s).dom().contains(k),
    decreases s.len(),
{
    if s.len() > 0 {
        let t = s.drop_last();
        assert forall|i: int| 0 <= i < t.len() implies t[i].device_id@ != k by {
            assert(t[i] == s[i]);
        }
        lemma_map_of_absent(t, k);
        assert(s.last() == s[s.len() - 1]);
    }
}

proof fn lemma_map_of_dom(s: Seq<DeviceInfo>, k: Seq<char>)
    requires
        map_of(s).dom().contains(k),
    ensures
        exists|i: int| 0 <= i < s.len() && s[i].device_id@ == k,
    decreases s.len(),
{
    if s.len() > 0 {
        let t = s.drop_last();
        if s.last().device_id@ == k {
            assert(s[s.len() - 1].device_id@ == k);
        } else {
            lemma_map_of_dom(t, k);
            let i = choose|i: int| 0 <= i < t.len() && t[i].device_id@ == k;
            assert(s[i] == t[i]);
        }
    }
}

proof fn lemma_map_of_finite(s: Seq<DeviceInfo>)
    ensures
        map_of(s).dom().finite(),
    decreases s.len(),
{
    if s.len() > 0 {
        lemma_map_of_finite(s.drop_last());
    }
}

/// The map of a sequence with unique ids, entry by entry.
proof fn lemma_map_of_ext(s: Seq<DeviceInfo>, m: Map<Seq<char>, DeviceInfo>)
    requires
        ids_unique(s),
        forall|i: int| 0 <= i < s.len() ==> m.dom().contains(#[trigger] s[i].device_id@) && m[s[i].device_id@]
            == s[i],
        forall|k: Seq<char>| m.dom().contains(k) ==> exists|i: int| 0 <= i < s.len() && s[i].device_id@ == k,
    ensures
        map_of(s) == m,
{
    assert forall|k: Seq<char>| map_of(s).dom().contains(k) <==> m.dom().contains(k) by {
        if map_of(s).dom().contains(k) {
            lemma_map_of_dom(s, k);
        }
        if m.dom().contains(k) {
            let i = choose|i: int| 0 <= i < s.len() && s[i].device_id@ == k;
            lemma_map_of_lookup(s, i);
        }
    }
    assert forall|k: Seq<char>| m.dom().contains(k) implies map_of(s)[k] == m[k] by {
        let i = choose|i: int| 0 <= i < s.len() && s[i].device_id@ == k;
        lemma_map_of_lookup(s, i);
    }
    assert(map_of(s) =~= m);
}

impl DeviceRegistry {
    /// The registered devices by id.
    pub closed spec fn view(&self) -> Map<Seq<char>, DeviceInfo> {
        map_of(self.devices@)
    }

    pub closed spec fn wf(&self) -> bool {
        ids_unique(self.devices@)
    }

    /// Law: finitely many devices are registered.
    pub proof fn lemma_finitely_many(&self)
        ensures
            self.view().dom().finite(),
    {
        lemma_map_of_finite(self.devices@);
    }

    /// Each registered device is filed under its own id.
    pub proof fn lemma_filed_under_own_id(&self)
        requires
            self.wf(),
        ensures
            forall|k: Seq<char>| #[trigger] self.view().dom().contains(k) ==> self.view()[k].device_id@ == k,
    {
        assert forall|k: Seq<char>| #[trigger] self.view().dom().contains(k) implies self.view()[k].device_id@
            == k by {
            lemma_map_of_dom(self.devices@, k);
            let i = choose|i: int| 0 <= i < self.devices@.len() && self.devices@[i].device_id@ == k;
            lemma_map_of_lookup(self.devices@, i);
        }
    }

    /// An empty registry.
    pub fn new() -> (r: Self)
        ensures
            r.wf(),
            r.view() == Map::<Seq<char>, DeviceInfo>::empty(),
    {
        DeviceRegistry { devices: Vec::new() }
    }

    fn position(&self, device_id: &str) -> (r: Option<usize>)
        requires
            self.wf(),
        ensures
            match r {
                Some(i) => i < self.devices@.len() && self.devices@[i as int].device_id@ == device_id@,
                None => forall|i: int|
                    0 <= i < self.devices@.len() ==> self.devices@[i].device_id@ != device_id@,
            },
    {
        let mut i: usize = 0;
        while i < self.devices.len()
            invariant
                i <= self.devices@.len(),
                forall|k: int| 0 <= k < i ==> self.devices@[k].device_id@ != device_id@,
            decreases self.devices@.len() - i,
        {
            if str_equals(self.devices[i].device_id.as_str(), device_id) {
                return Some(i);
            }
            i = i + 1;
        }
        None
    }

    /// Registers a device, replacing the one with the same id.
    pub fn add(&mut self, device: DeviceInfo)
        requires
            old(self).wf(),
        ensures
            final(self).wf(),
            final(self).view() == old(self).view().insert(device.device_id@, device),
    {
        let ghost old_s = self.devices@;
        let ghost k = device.device_id@;
        match self.position(device.device_id.as_str()) {
            Some(i) => {
                self.devices.set(i, device);
                proof {
                    let s = self.devices@;
                    assert(ids_unique(s)) by {
                        assert forall|a: int, b: int| 0 <= a < b < s.len() implies s[a].device_id@
                            != s[b].device_id@ by {
                            if a != i && b != i {
                                assert(s[a] == old_s[a] && s[b] == old_s[b]);
                            } else if a == i {
                                assert(s[b] == old_s[b]);
                            } else {
                                assert(s[a] == old_s[a]);
                            }
                        }
                    }
                    let m = map_of(old_s).insert(k, device);
                    assert forall|j: int| 0 <= j < s.len() implies m.dom().contains(
                        #[trigger] s[j].device_id@,
                    ) && m[s[j].device_id@] == s[j] by {
                        if j != i {
                            assert(s[j] == old_s[j]);
                            lemma_map_of_lookup(old_s, j);
                        }
                    }
                    assert forall|kk: Seq<char>| m.dom().contains(kk) implies exists|j: int|
                        0 <= j < s.len() && s[j].device_id@ == kk by {
                        if kk == k {
                            assert(s[i as int].device_id@ == kk);
                        } else {
                            lemma_map_of_dom(old_s, kk);
                            let j = choose|j: int| 0 <= j < old_s.len() && old_s[j].device_id@ == kk;
                            assert(j != i);
                            assert(s[j] == old_s[j]);
                        }
                    }
                    lemma_map_of_ext(s, m);
                }
            },
            None => {
                self.devices.push(device);
                proof {
                    let s = self.devices@;
                    assert(s.drop_last() =~= old_s);
                    assert(ids_unique(s)) by {
                        assert forall|a: int, b: int| 0 <= a < b < s.len() implies s[a].device_id@
                            != s[b].device_id@ by {
                            if b < s.len() - 1 {
                                assert(s[a] == old_s[a] && s[b] == old_s[b]);
                            } else {
                                assert(s[a] == old_s[a]);
                            }
                        }
                    }
                }
            },
        }
    }

    /// Unregisters a device, giving it back if it was registered.
    pub fn remove(&mut self, device_id: &str) -> (r: Option<DeviceInfo>)
        requires
            old(self).wf(),
        ensures
            final(self).wf(),
            final(self).view() == old(self).view().remove(device_id@),
            r == if old(self).view().dom().contains(device_id@) {
                Some(old(self).view()[device_id@])
            } else {
                None::<DeviceInfo>
            },
    {
        let ghost old_s = self.devices@;
        let ghost k = device_id@;
        match self.position(device_id) {
            Some(i) => {
                proof {
                    lemma_map_of_lookup(old_s, i as int);
                }
                let d = self.devices.remove(i);
                proof {
                    let s = self.devices@;
                    assert(s =~= old_s.remove(i as int));
                    assert(ids_unique(s)) by {
                        assert forall|a: int, b: int| 0 <= a < b < s.len() implies s[a].device_id@
                            != s[b].device_id@ by {
                            let a0 = if a < i { a } else { a + 1 };
                            let b0 = if b < i { b } else { b + 1 };
                            assert(s[a] == old_s[a0] && s[b] == old_s[b0]);
                        }
                    }
                    let m = map_of(old_s).remove(k);
                    assert forall|j: int| 0 <= j < s.len() implies m.dom().contains(
                        #[trigger] s[j].device_id@,
                    ) && m[s[j].device_id@] == s[j] by {
                        let j0 = if j < i { j } else { j + 1 };
                        assert(s[j] == old_s[j0]);
                        lemma_map_of_lookup(old_s, j0);
                    }
                    assert forall|kk: Seq<char>| m.dom().contains(kk) implies exists|j: int|
                        0 <= j < s.len() && s[j].device_id@ == kk by {
                        lemma_map_of_dom(old_s, kk);
                        let j0 = choose|j: int| 0 <= j < old_s.len() && old_s[j].device_id@ == kk;
                        assert(j0 != i);
                        let j = if j0 < i { j0 } else { j0 - 1 };
                        assert(s[j] == old_s[j0]);
                    }
                    lemma_map_of_ext(s, m);
                }
                Some(d)
            },
            None => {
                proof {
                    lemma_map_of_absent(old_s, k);
                    assert(map_of(old_s).remove(k) =~= map_of(old_s));
                }
                None
            },
        }
    }

    /// The device with an id, if registered.
    pub fn get(&self, device_id: &str) -> (r: Option<&DeviceInfo>)
        requires
            self.wf(),
        ensures
            r == if self.view().dom().contains(device_id@) {
                Some(&self.view()[device_id@])
            } else {
                None::<&DeviceInfo>
            },
    {
        match self.position(device_id) {
            Some(i) => {
                proof {
                    lemma_map_of_lookup(self.devices@, i as int);
                }
                Some(&self.devices[i])
            },
            None => {
                proof {
                    lemma_map_of_absent(self.devices@, device_id@);
                }
                None
            },
        }
    }

    /// All registered devices, each once.
    pub fn list(&self) -> (r: Vec<&DeviceInfo>)
        requires
            self.wf(),
        ensures
            r@.len() == self.view().dom().len(),
            forall|i: int| 0 <= i < r@.len() ==> self.view().dom().contains(#[trigger] r@[i].device_id@)
                && self.view()[r@[i].device_id@] == *r@[i],
            forall|k: Seq<char>| self.view().dom().contains(k) ==> exists|i: int|
                0 <= i < r@.len() && r@[i].device_id@ == k,
            forall|i: int, j: int| 0 <= i < j < r@.len() ==> r@[i].device_id@ != r@[j].device_id@,
    {
        let mut out: Vec<&DeviceInfo> = Vec::new();
        let mut i: usize = 0;
        while i < self.devices.len()
            invariant
                i <= self.devices@.len(),
                out@.len() == i,
                forall|j: int| 0 <= j < i ==> out@[j] == &self.devices@[j],
            decreases self.devices@.len() - i,
        {
            out.push(&self.devices[i]);
            i = i + 1;
        }
        proof {
            let s = self.devices@;
            assert forall|j: int| 0 <= j < out@.len() implies self.view().dom().contains(
                #[trigger] out@[j].device_id@,
            ) && self.view()[out@[j].device_id@] == *out@[j] by {
                lemma_map_of_lookup(s, j);
            }
            assert forall|k: Seq<char>| self.view().dom().contains(k) implies exists|j: int|
                0 <= j < out@.len() && out@[j].device_id@ == k by {
                lemma_map_of_dom(s, k);
                let j = choose|j: int| 0 <= j < s.len() && s[j].device_id@ == k;
                assert(out@[j] == &s[j]);
            }
            lemma_map_of_len(s);
            assert forall|a: int, b: int| 0 <= a < b < out@.len() implies out@[a].device_id@
                != out@[b].device_id@ by {
                assert(out@[a] == &s[a] && out@[b] == &s[b]);
            }
        }
        out
    }
}

proof fn lemma_map_of_len(s: Seq<DeviceInfo>)
    requires
        ids_unique(s),
    ensures
        map_of(s).dom().len() == s.len(),
        map_of(s).dom().finite(),
    decreases s.len(),
{
    if s.len() > 0 {
        let t = s.drop_last();
        assert(ids_unique(t));
        lemma_map_of_len(t);
        assert forall|i: int| 0 <= i < t.len() implies t[i].device_id@ != s.last().device_id@ by {
            assert(t[i] == s[i]);
        }
        lemma_map_of_absent(t, s.last().device_id@);
    }
}

/// Law: a device just added is found under its id, and gone once removed.
pub proof fn lemma_add_then_get(m: Map<Seq<char>, DeviceInfo>, d: DeviceInfo)
    ensures
        m.insert(d.device_id@, d).dom().contains(d.device_id@),
        m.insert(d.device_id@, d)[d.device_id@] == d,
        !m.insert(d.device_id@, d).remove(d.device_id@).dom().contains(d.device_id@),
{
}

} // verus!
