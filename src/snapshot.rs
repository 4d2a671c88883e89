//! The snapshot model: what the dashboard keeps of each workload pod, and
//! the order in which it lists them.

use vstd::prelude::*;
use crate::duration::Timestamp;

verus! {

broadcast use vstd::seq_lib::group_to_multiset_ensures;

/// What the cluster reports of one pod, as plain values.
pub struct PodRecord {
    pub name: String,
    /// Phase of the pod, where the cluster reports one.
    pub phase: Option<String>,
    /// Node the pod is bound to.
    pub node_name: Option<String>,
    /// Value of the pod's `oom/artist` label.
    pub artist: Option<String>,
    /// Value of the pod's `managed-by` label.
    pub managed_by: Option<String>,
    /// Name of the resource (a job) that controls the pod.
    pub owner: Option<String>,
    pub start_time: Option<Timestamp>,
    pub creation_timestamp: Option<Timestamp>,
    /// For each container, the instant it terminated, where it has.
    pub container_finished_at: Vec<Option<Timestamp>>,
}

/// One workload as the dashboard lists it.
pub struct Data {
    pub name: String,
    pub status: String,
    pub artist: String,
    pub node: String,
    /// Grouping key of the job family the workload belongs to.
    pub controller: Option<String>,
    pub started_at: Option<Timestamp>,
    pub finished_at: Option<Timestamp>,
    pub created_at: Option<Timestamp>,
}

/// A `Data` with its texts as character sequences.
pub struct DataView {
    pub name: Seq<char>,
    pub status: Seq<char>,
    pub artist: Seq<char>,
    pub node: Seq<char>,
    pub controller: Option<Seq<char>>,
    pub started_at: Option<Timestamp>,
    pub finished_at: Option<Timestamp>,
    pub created_at: Option<Timestamp>,
}

pub open spec fn opt_view(o: Option<String>) -> Option<Seq<char>> {
    match o {
        Some(s) => Some(s@),
        None => None,
    }
}

/// The text of `o`, or `fallback` where there is none.
pub open spec fn text_or(o: Option<String>, fallback: Seq<char>) -> Seq<char> {
    match o {
        Some(s) => s@,
        None => fallback,
    }
}

pub open spec fn opt_wf(t: Option<Timestamp>) -> bool {
    match t {
        Some(t) => t.wf(),
        None => true,
    }
}

impl View for Data {
    type V = DataView;

    open spec fn view(&self) -> DataView {
        DataView {
            name: self.name@,
            status: self.status@,
            artist: self.artist@,
            node: self.node@,
            controller: opt_view(self.controller),
            started_at: self.started_at,
            finished_at: self.finished_at,
            created_at: self.created_at,
        }
    }
}

impl Data {
    /// Every instant of the workload lies in the supported range.
    pub open spec fn wf(&self) -> bool {
        opt_wf(self.started_at) && opt_wf(self.finished_at) && opt_wf(self.created_at)
    }
}

impl PodRecord {
    /// Every instant of the record lies in the supported range.
    pub open spec fn wf(&self) -> bool {
        &&& opt_wf(self.start_time)
        &&& opt_wf(self.creation_timestamp)
        &&& forall|i: int|
            0 <= i < self.container_finished_at@.len() ==> opt_wf(
                #[trigger] self.container_finished_at@[i],
            )
    }
}

/// The part of `s` after its last `-` (all of `s` where it has none).
pub open spec fn last_segment(s: Seq<char>) -> Seq<char>
    decreases s.len(),
{
    if s.len() == 0 {
        s
    } else if s.last() == '-' {
        Seq::empty()
    } else {
        last_segment(s.drop_last()).push(s.last())
    }
}

/// `b` is at least as late as `a`.
pub open spec fn not_earlier(b: Timestamp, a: Timestamp) -> bool {
    b.total_nanos() >= a.total_nanos()
}

/// The later of two optional instants; an instant beats none.
pub open spec fn later_of(a: Option<Timestamp>, b: Option<Timestamp>) -> Option<Timestamp> {
    match (a, b) {
        (Some(x), Some(y)) => if not_earlier(y, x) {
            Some(y)
        } else {
            Some(x)
        },
        (None, y) => y,
        (x, None) => x,
    }
}

/// The latest of the instants in `ts`, if there is any.
pub open spec fn latest_instant(ts: Seq<Option<Timestamp>>) -> Option<Timestamp>
    decreases ts.len(),
{
    if ts.len() == 0 {
        None
    } else {
        later_of(latest_instant(ts.drop_last()), ts.last())
    }
}

/// The snapshot of a pod: a missing phase reads "Unknown", a missing node
/// "N/A", a missing artist "Unknown"; the controller key is the last
/// `-`-separated part of the owner's name; the workload finished when its
/// last container did.
pub open spec fn snapshot_of(p: PodRecord) -> DataView {
    DataView {
        name: p.name@,
        status: text_or(p.phase, "Unknown"@),
        artist: text_or(p.artist, "Unknown"@),
        node: text_or(p.node_name, "N/A"@),
        controller: match p.owner {
            Some(o) => Some(last_segment(o@)),
            None => None,
        },
        started_at: p.start_time,
        finished_at: latest_instant(p.container_finished_at@),
        created_at: p.creation_timestamp,
    }
}

/// Creation instants in listing order: `a` may stand before `b`. Later
/// instants come first, and a workload with no creation instant after every
/// one that has.
pub open spec fn newer_or_same(a: Option<Timestamp>, b: Option<Timestamp>) -> bool {
    match (a, b) {
        (Some(x), Some(y)) => not_earlier(x, y),
        (Some(_), None) => true,
        (None, Some(_)) => false,
        (None, None) => true,
    }
}

/// `s` lists the newest workloads first.
pub open spec fn newest_first(s: Seq<DataView>) -> bool {
    forall|i: int, j: int|
        0 <= i < j < s.len() ==> newer_or_same(#[trigger] s[i].created_at, #[trigger] s[j].created_at)
}

pub open spec fn data_views(s: Seq<Data>) -> Seq<DataView> {
    s.map_values(|d: Data| d@)
}

pub open spec fn snapshots_of(pods: Seq<PodRecord>) -> Seq<DataView> {
    pods.map_values(|p: PodRecord| snapshot_of(p))
}

pub open spec fn all_wf(s: Seq<Data>) -> bool {
    forall|i: int| 0 <= i < s.len() ==> (#[trigger] s[i]).wf()
}

/// The last `-`-separated part of `s`.
pub fn controller_suffix(s: &str) -> (r: String)
    ensures
        r@ == last_segment(s@),
{
    let n = s.unicode_len();
    let mut j = n;
    assert(s@.subrange(0, n as int) == s@);
    assert(s@.subrange(n as int, n as int) == Seq::<char>::empty());
    assert(last_segment(s@) + Seq::<char>::empty() == last_segment(s@));
    while j > 0 && s.get_char(j - 1) != '-'
        invariant
            n == s@.len(),
            j <= n,
            last_segment(s@) == last_segment(s@.subrange(0, j as int)) + s@.subrange(
                j as int,
                n as int,
            ),
        decreases j,
    {
        let ghost pre = s@.subrange(0, j as int);
        assert(pre.drop_last() == s@.subrange(0, j - 1));
        assert(s@.subrange(j - 1, n as int) == seq![pre.last()] + s@.subrange(j as int, n as int));
        assert(last_segment(s@.subrange(0, j - 1)).push(pre.last()) + s@.subrange(j as int, n as int)
            == last_segment(s@.subrange(0, j - 1)) + s@.subrange(j - 1, n as int));
        j = j - 1;
    }
    if j == 0 {
        assert(s@.subrange(0, 0).len() == 0);
        assert(last_segment(s@.subrange(0, 0)) == Seq::<char>::empty());
    } else {
        let ghost pre = s@.subrange(0, j as int);
        assert(pre.last() == '-');
    }
    assert(last_segment(s@) == s@.subrange(j as int, n as int));
    String::from_str(s.substring_char(j, n))
}

/// Whether `b` is at least as late as `a`.
fn is_not_earlier(b: &Timestamp, a: &Timestamp) -> (r: bool)
    ensures
        r == not_earlier(*b, *a),
{
    !crate::duration::is_before(b, a)
}

/// The latest instant at which a container of the pod terminated.
pub fn pod_finished_at(pod: &PodRecord) -> (r: Option<Timestamp>)
    requires
        pod.wf(),
    ensures
        r == latest_instant(pod.container_finished_at@),
        opt_wf(r),
{
    let ts = &pod.container_finished_at;
    let mut best: Option<Timestamp> = None;
    let mut i: usize = 0;
    while i < ts.len()
        invariant
            i <= ts@.len(),
            pod.wf(),
            ts == &pod.container_finished_at,
            best == latest_instant(ts@.subrange(0, i as int)),
            opt_wf(best),
        decreases ts@.len() - i,
    {
        let ghost pre = ts@.subrange(0, i + 1);
        assert(pre.drop_last() == ts@.subrange(0, i as int));
        assert(opt_wf(ts@[i as int]));
        match ts[i] {
            Some(t) => {
                match best {
                    Some(b) => {
                        if is_not_earlier(&t, &b) {
                            best = Some(t);
                        }
                    },
                    None => {
                        best = Some(t);
                    },
                }
            },
            None => {},
        }
        i = i + 1;
    }
    assert(ts@.subrange(0, ts@.len() as int) == ts@);
    best
}

/// A reference from a pod to a resource that owns it.
pub struct OwnerRef {
    pub name: String,
    /// The owner is the pod's managing controller.
    pub controller: bool,
}

/// The name of the first owner marked as controller, if any.
pub open spec fn first_controller(owners: Seq<OwnerRef>) -> Option<Seq<char>>
    decreases owners.len(),
{
    if owners.len() == 0 {
        None
    } else if owners[0].controller {
        Some(owners[0].name@)
    } else {
        first_controller(owners.drop_first())
    }
}

/// The owner whose name gives a pod's job family: the first one marked as
/// controller, else the first one, else none.
pub open spec fn chosen_owner(owners: Seq<OwnerRef>) -> Option<Seq<char>> {
    match first_controller(owners) {
        Some(n) => Some(n),
        None => if owners.len() > 0 {
            Some(owners[0].name@)
        } else {
            None
        },
    }
}

/// The name of the owner that gives a pod's job family.
pub fn controlling_owner(owners: &Vec<OwnerRef>) -> (r: Option<String>)
    ensures
        opt_view(r) == chosen_owner(owners@),
{
    let mut i: usize = 0;
    assert(owners@.skip(0) == owners@);
    while i < owners.len() && !owners[i].controller
        invariant
            i <= owners@.len(),
            first_controller(owners@) == first_controller(owners@.skip(i as int)),
        decreases owners@.len() - i,
    {
        assert(owners@.skip(i as int).drop_first() == owners@.skip(i + 1));
        i = i + 1;
    }
    if i < owners.len() {
        assert(owners@.skip(i as int)[0] == owners@[i as int]);
        Some(owners[i].name.clone())
    } else if owners.len() > 0 {
        assert(owners@.skip(i as int).len() == 0);
        Some(owners[0].name.clone())
    } else {
        None
    }
}

/// Turns a pod record into the snapshot the dashboard lists.
pub fn pod_to_data(pod: PodRecord) -> (r: Data)
    requires
        pod.wf(),
    ensures
        r@ == snapshot_of(pod),
        r.wf(),
{
    let finished_at = pod_finished_at(&pod);
    let controller = match &pod.owner {
        Some(o) => Some(controller_suffix(o.as_str())),
        None => None,
    };
    let status = match pod.phase {
        Some(s) => s,
        None => String::from_str("Unknown"),
    };
    let node = match pod.node_name {
        Some(s) => s,
        None => String::from_str("N/A"),
    };
    let artist = match pod.artist {
        Some(s) => s,
        None => String::from_str("Unknown"),
    };
    Data {
        name: pod.name,
        status,
        artist,
        node,
        controller,
        started_at: pod.start_time,
        finished_at,
        created_at: pod.creation_timestamp,
    }
}

proof fn lemma_insert_to_multiset<A>(s: Seq<A>, i: int, x: A)
    requires
        0 <= i <= s.len(),
    ensures
        s.insert(i, x).to_multiset() =~= s.to_multiset().insert(x),
{
    let t = s.insert(i, x);
    assert(t.remove(i) =~= s);
    assert(t[i] == x);
    assert(t.to_multiset().count(x) > 0);
}

/// Whether a workload created at `a` belongs strictly before one created at
/// `b` in the listing.
fn strictly_newer(a: &Option<Timestamp>, b: &Option<Timestamp>) -> (r: bool)
    ensures
        r == !newer_or_same(*b, *a),
{
    match (a, b) {
        (Some(x), Some(y)) => !is_not_earlier(y, x),
        (Some(_), None) => true,
        (None, _) => false,
    }
}

/// Turns pod records into snapshots listed newest first: by creation
/// instant, latest first, and those without one after all others.
pub fn pods_to_data(pods: Vec<PodRecord>) -> (r: Vec<Data>)
    requires
        forall|i: int| 0 <= i < pods@.len() ==> (#[trigger] pods@[i]).wf(),
    ensures
        newest_first(data_views(r@)),
        data_views(r@).to_multiset() == snapshots_of(pods@).to_multiset(),
        r@.len() == pods@.len(),
        all_wf(r@),
{
    let ghost input = pods@;
    let mut pods = pods;
    let mut items: Vec<Data> = Vec::new();
    let n = pods.len();
    let mut k: usize = 0;
    while pods.len() > 0
        invariant
            k + pods@.len() == n,
            n == input.len(),
            pods@ == input.skip(k as int),
            forall|i: int| 0 <= i < input.len() ==> (#[trigger] input[i]).wf(),
            newest_first(data_views(items@)),
            data_views(items@).to_multiset() == snapshots_of(input.take(k as int)).to_multiset(),
            items@.len() == k,
            all_wf(items@),
        decreases pods@.len(),
    {
        let p = pods.remove(0);
        assert(p == input[k as int]);
        assert(pods@ == input.skip(k + 1));
        let d = pod_to_data(p);
        let mut pos: usize = 0;
        while pos < items.len() && !strictly_newer(&d.created_at, &items[pos].created_at)
            invariant
                pos <= items@.len(),
                forall|j: int|
                    0 <= j < pos ==> newer_or_same(#[trigger] items@[j].created_at, d.created_at),
            decreases items@.len() - pos,
        {
            pos = pos + 1;
        }
        let ghost old_items = items@;
        items.insert(pos, d);
        proof {
            let vs = data_views(old_items);
            assert(data_views(items@) =~= vs.insert(pos as int, d@));
            lemma_insert_to_multiset(vs, pos as int, d@);
            assert(input.take(k + 1) =~= input.take(k as int).push(input[k as int]));
            assert(snapshots_of(input.take(k + 1)) =~= snapshots_of(input.take(k as int)).push(
                snapshot_of(input[k as int]),
            ));
            let w = data_views(items@);
            assert forall|i: int, j: int| 0 <= i < j < w.len() implies newer_or_same(
                #[trigger] w[i].created_at,
                #[trigger] w[j].created_at,
            ) by {
                if j < pos {
                    assert(w[i] == vs[i] && w[j] == vs[j]);
                } else if j == pos {
                    assert(w[i] == vs[i]);
                } else if i < pos {
                    assert(w[i] == vs[i] && w[j] == vs[j - 1]);
                    assert(newer_or_same(vs[i].created_at, d.created_at));
                    assert(!newer_or_same(vs[pos as int].created_at, d.created_at));
                    assert(newer_or_same(vs[pos as int].created_at, vs[j - 1].created_at)
                        || pos == j - 1);
                } else if i == pos {
                    assert(w[j] == vs[j - 1]);
                    assert(!newer_or_same(vs[pos as int].created_at, d.created_at));
                    assert(newer_or_same(vs[pos as int].created_at, vs[j - 1].created_at)
                        || pos == j - 1);
                } else {
                    assert(w[i] == vs[i - 1] && w[j] == vs[j - 1]);
                }
            }
            assert forall|i: int| 0 <= i < items@.len() implies (#[trigger] items@[i]).wf() by {
                if i < pos {
                    assert(items@[i] == old_items[i]);
                } else if i > pos {
                    assert(items@[i] == old_items[i - 1]);
                }
            }
        }
        k = k + 1;
    }
    assert(input.take(n as int) =~= input);
    items
}

} // verus!
