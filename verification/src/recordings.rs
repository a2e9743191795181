//! The platform's view of the recordings stored for devices: the entry
//! made for each recording file found, and the newest-first order of a
//! device's list.

use vstd::prelude::*;
use vstd::multiset::Multiset;
use crate::protocol::RecordingInfo;
use crate::text::join_underscore;

verus! {

/// `unknown` as characters.
pub open spec fn unknown_text() -> Seq<char> {
    seq!['u', 'n', 'k', 'n', 'o', 'w', 'n']
}

/// `1920x1080` as characters.
pub open spec fn full_hd_text() -> Seq<char> {
    seq!['1', '9', '2', '0', 'x', '1', '0', '8', '0']
}

/// The text, or `unknown` when there is none.
pub open spec fn or_unknown(t: Option<Seq<char>>) -> Seq<char> {
    match t {
        Some(s) => s,
        None => unknown_text(),
    }
}

/// Finds the recordings stored for devices under a storage root.
#[derive(Debug, Clone)]
pub struct RecordingScanner {
    pub storage_root: std::path::PathBuf,
}

impl RecordingScanner {
    /// A scanner of the recordings under `storage_root`.
    pub fn new(storage_root: std::path::PathBuf) -> (s: Self)
        ensures
            s.storage_root == storage_root,
    {
        RecordingScanner { storage_root }
    }
}

fn unknown_or(t: Option<String>) -> (r: String)
    ensures
        r@ == or_unknown(
            match t {
                Some(s) => Some(s@),
                None => None,
            },
        ),
{
    match t {
        Some(s) => s,
        None => {
            let u = "unknown";
            proof {
                reveal_strlit("unknown");
                assert(u@ =~= unknown_text());
            }
            u.to_owned()
        },
    }
}

/// The entry of a recording file of device `device_id`: its file name and
/// extension (`unknown` where the path has none in UTF-8), the path's text,
/// the size and times from its metadata; the file id is the device id and
/// the file name joined by an underscore. The duration is not parsed (0),
/// and 1920x1080, 5 Mbit/s and 30 fps are assumed.
pub fn recording_info_from(
    device_id: &str,
    file_name: Option<String>,
    extension: Option<String>,
    file_path: String,
    file_size: u64,
    created_us: u64,
    modified_us: u64,
) -> (r: RecordingInfo)
    ensures
        r.file_name@ == or_unknown(
            match file_name {
                Some(s) => Some(s@),
                None => None,
            },
        ),
        r.file_id@ == device_id@ + seq!['_'] + r.file_name@,
        r.device_id@ == device_id@,
        r.file_path == file_path,
        r.file_size == file_size,
        r.duration_us == 0,
        r.format@ == or_unknown(
            match extension {
                Some(s) => Some(s@),
                None => None,
            },
        ),
        r.resolution@ == full_hd_text(),
        r.bitrate == 5_000_000,
        r.frame_rate_milli == 30_000,
        r.created_time_us == created_us,
        r.modified_time_us == modified_us,
{
    let name = unknown_or(file_name);
    let file_id = join_underscore(device_id, name.as_str());
    let format = unknown_or(extension);
    let res = "1920x1080";
    proof {
        reveal_strlit("1920x1080");
        assert(res@ =~= full_hd_text());
    }
    RecordingInfo {
        file_id,
        device_id: device_id.to_owned(),
        file_name: name,
        file_path,
        file_size,
        duration_us: 0,
        format,
        resolution: res.to_owned(),
        bitrate: 5_000_000,
        frame_rate_milli: 30_000,
        created_time_us: created_us,
        modified_time_us: modified_us,
    }
}

/// Whether recordings are in newest-first order of creation.
pub open spec fn newest_first_order(s: Seq<RecordingInfo>) -> bool {
    forall|i: int, j: int| 0 <= i <= j < s.len() ==> s[i].created_time_us >= s[j].created_time_us
}

/// Whether a recording was created at `t`.
pub open spec fn created_at_time(t: u64) -> spec_fn(RecordingInfo) -> bool {
    |r: RecordingInfo| r.created_time_us == t
}

/// The recordings of `s` created at `t`, in their order.
pub open spec fn created_at(s: Seq<RecordingInfo>, t: u64) -> Seq<RecordingInfo> {
    s.filter(created_at_time(t))
}

proof fn lemma_created_at_none(s: Seq<RecordingInfo>, t: u64)
    requires
        forall|k: int| 0 <= k < s.len() ==> s[k].created_time_us != t,
    ensures
        created_at(s, t) == Seq::<RecordingInfo>::empty(),
    decreases s.len(),
{
    reveal(Seq::filter);
    if s.len() > 0 {
        lemma_created_at_none(s.drop_last(), t);
    }
}

/// Puts recordings in newest-first order of creation; recordings created
/// at the same time keep their order.
pub fn sort_newest_first(v: Vec<RecordingInfo>) -> (r: Vec<RecordingInfo>)
    ensures
        r@.to_multiset() == v@.to_multiset(),
        newest_first_order(r@),
        forall|t: u64| #[trigger] created_at(r@, t) == created_at(v@, t),
{
    broadcast use vstd::seq_lib::group_to_multiset_ensures;

    let mut rest = v;
    let ghost orig = rest@;
    let mut out: Vec<RecordingInfo> = Vec::new();
    let ghost mut taken: int = 0;
    while rest.len() > 0
        invariant
            out@.to_multiset().add(rest@.to_multiset()) == orig.to_multiset(),
            newest_first_order(out@),
            rest@ == orig.skip(taken),
            0 <= taken <= orig.len(),
            forall|t: u64| #[trigger] created_at(out@, t) == created_at(orig.take(taken), t),
        decreases rest@.len(),
    {
        let ghost rest_before = rest@;
        let item = rest.remove(0);
        let ghost p = taken;
        proof {
            vstd::seq_lib::to_multiset_remove(rest_before, 0);
            assert(rest@ == rest_before.remove(0));
            assert(orig[p] == item);
            taken = taken + 1;
            assert(rest@ =~= orig.skip(taken));
            assert(orig.take(taken) =~= orig.take(p).push(item));
        }
        // Place `item` after every recording at least as new.
        let mut i: usize = 0;
        while i < out.len() && out[i].created_time_us >= item.created_time_us
            invariant
                i <= out@.len(),
                forall|k: int| 0 <= k < i ==> out@[k].created_time_us >= item.created_time_us,
            decreases out@.len() - i,
        {
            i = i + 1;
        }
        let ghost before = out@;
        let ghost old_multiset = out@.to_multiset();
        out.insert(i, item);
        proof {
            assert(out@ == before.insert(i as int, item));
            vstd::seq_lib::to_multiset_insert(before, i as int, item);
            assert(out@.to_multiset() == old_multiset.insert(item));
            broadcast use vstd::multiset::group_multiset_axioms;
            assert(rest_before.contains(item));
            rest_before.to_multiset_ensures();
            assert(rest_before.to_multiset().count(item) > 0);
            assert(out@.to_multiset().add(rest@.to_multiset()) =~= old_multiset.add(rest_before.to_multiset()));
            assert forall|a: int, b: int| 0 <= a <= b < out@.len() implies out@[a].created_time_us
                >= out@[b].created_time_us by {
                if b < i {
                } else if a < i && b == i {
                } else if a < i && b > i {
                    assert(out@[b] == before[b - 1]);
                    if i < before.len() {
                        assert(before[i as int].created_time_us < item.created_time_us);
                        assert(before[i as int].created_time_us >= before[b - 1].created_time_us);
                    }
                } else if a == i && b > i {
                    assert(out@[b] == before[b - 1]);
                    assert(before[i as int].created_time_us < item.created_time_us);
                    assert(before[i as int].created_time_us >= before[b - 1].created_time_us);
                } else if a > i {
                    assert(out@[a] == before[a - 1] && out@[b] == before[b - 1]);
                }
            }
            let a = before.take(i as int);
            let b = before.skip(i as int);
            assert(before =~= a + b);
            assert(out@ =~= a + seq![item] + b);
            assert forall|t: u64| #[trigger] created_at(out@, t) == created_at(orig.take(taken), t) by {
                let pred = created_at_time(t);
                Seq::filter_distributes_over_add(a + seq![item], b, pred);
                Seq::filter_distributes_over_add(a, seq![item], pred);
                Seq::filter_distributes_over_add(a, b, pred);
                Seq::<RecordingInfo>::empty().lemma_filter_push(item, pred);
                assert(Seq::<RecordingInfo>::empty().push(item) =~= seq![item]);
                assert(Seq::<RecordingInfo>::empty().filter(pred) =~= Seq::<RecordingInfo>::empty()) by {
                    reveal(Seq::filter);
                }
                orig.take(p).lemma_filter_push(item, pred);
                assert(created_at(before, t) == created_at(orig.take(p), t));
                if t == item.created_time_us {
                    assert forall|k: int| 0 <= k < b.len() implies b[k].created_time_us != t by {
                        assert(b[k] == before[i + k]);
                        assert(before[i as int].created_time_us < item.created_time_us);
                        assert(before[i as int].created_time_us >= before[i + k].created_time_us);
                    }
                    lemma_created_at_none(b, t);
                    assert(created_at(out@, t) =~= created_at(a, t).push(item));
                    assert(created_at(before, t) =~= created_at(a, t));
                    assert(created_at(orig.take(p).push(item), t) == created_at(orig.take(p), t).push(item));
                } else {
                    assert(created_at(out@, t) =~= created_at(a, t) + created_at(b, t));
                    assert(created_at(orig.take(p).push(item), t) == created_at(orig.take(p), t));
                }
            }
        }
    }
    proof {
        assert(rest@.len() == 0);
        assert(rest@.to_multiset() =~= Multiset::empty());
        assert(out@.to_multiset().add(Multiset::empty()) =~= out@.to_multiset());
        assert(orig.take(taken) =~= orig);
    }
    out
}

/// Law: two newest-first arrangements of the same recordings agree on the
/// creation time at every position.
pub proof fn lemma_newest_first_unique(a: Seq<RecordingInfo>, b: Seq<RecordingInfo>)
    requires
        newest_first_order(a),
        newest_first_order(b),
        a.to_multiset() == b.to_multiset(),
    ensures
        a.len() == b.len(),
        forall|i: int| 0 <= i < a.len() ==> a[i].created_time_us == b[i].created_time_us,
    decreases a.len(),
{
    broadcast use vstd::seq_lib::group_to_multiset_ensures;

    assert(a.len() == a.to_multiset().len());
    assert(b.len() == b.to_multiset().len());
    if a.len() > 0 {
        let x = a[0];
        let y = b[0];
        assert(a.to_multiset().count(x) > 0);
        assert(b.contains(x));
        assert(b.to_multiset().count(y) > 0);
        assert(a.contains(y));
        let ia = choose|k: int| 0 <= k < a.len() && a[k] == y;
        let ib = choose|k: int| 0 <= k < b.len() && b[k] == x;
        assert(x.created_time_us >= y.created_time_us);
        assert(y.created_time_us >= x.created_time_us);
        let a1 = a.remove(0);
        let b1 = b.remove(0);
        assert(a1.to_multiset() =~= a.to_multiset().remove(x));
        assert(b1.to_multiset() =~= b.to_multiset().remove(y));
        // The first elements share a key; drop x from both sides.
        let jb = ib;
        let b2 = b.remove(jb);
        assert(b2.to_multiset() =~= b.to_multiset().remove(x));
        assert(newest_first_order(a1)) by {
            assert forall|p: int, q: int| 0 <= p <= q < a1.len() implies a1[p].created_time_us
                >= a1[q].created_time_us by {
                assert(a1[p] == a[p + 1] && a1[q] == a[q + 1]);
            }
        }
        assert(newest_first_order(b2)) by {
            assert forall|p: int, q: int| 0 <= p <= q < b2.len() implies b2[p].created_time_us
                >= b2[q].created_time_us by {
                let p0 = if p < jb { p } else { p + 1 };
                let q0 = if q < jb { q } else { q + 1 };
                assert(b2[p] == b[p0] && b2[q] == b[q0]);
            }
        }
        lemma_newest_first_unique(a1, b2);
        assert forall|i: int| 0 <= i < a.len() implies a[i].created_time_us == b[i].created_time_us by {
            if i > 0 {
                assert(a[i] == a1[i - 1]);
                let i0 = if i - 1 < jb { i - 1 } else { i };
                assert(b2[i - 1] == b[i0]);
                // b[i0] and b[i] lie between positions with the same key.
                if i0 != i {
                    assert(i - 1 < jb);
                    assert(b[i - 1].created_time_us >= b[i].created_time_us);
                    assert(b[i].created_time_us >= b[jb].created_time_us);
                    assert(b[0].created_time_us >= b[i - 1].created_time_us);
                }
            }
        }
    }
}

} // verus!
