//! The dashboard's rules on cluster objects: which pods it watches, what a
//! node's farm label means, and which jobs form one family.

use vstd::prelude::*;
use crate::progress::string_views;
use crate::snapshot::{PodRecord, last_segment, opt_view};

verus! {

/// Value of the `managed-by` label of the pods the dashboard watches.
pub open spec fn watched_manager() -> Seq<char> {
    "oom-scheduler"@
}

/// The pod is one that the farm's scheduler manages.
pub open spec fn managed(p: PodRecord) -> bool {
    opt_view(p.managed_by) == Some(watched_manager())
}

/// Whether the farm's scheduler manages the pod.
pub fn is_managed(pod: &PodRecord) -> (r: bool)
    ensures
        r == managed(*pod),
{
    match &pod.managed_by {
        Some(v) => *v == String::from_str("oom-scheduler"),
        None => false,
    }
}

/// Keeps the pods that the farm's scheduler manages, in their order.
pub fn managed_pods(pods: Vec<PodRecord>) -> (r: Vec<PodRecord>)
    ensures
        r@ == pods@.filter(|p: PodRecord| managed(p)),
{
    let ghost input = pods@;
    let mut pods = pods;
    let mut kept: Vec<PodRecord> = Vec::new();
    let n = pods.len();
    let mut k: usize = 0;
    while pods.len() > 0
        invariant
            k + pods@.len() == n,
            n == input.len(),
            pods@ == input.skip(k as int),
            kept@ == input.take(k as int).filter(|p: PodRecord| managed(p)),
        decreases pods@.len(),
    {
        let p = pods.remove(0);
        assert(p == input[k as int]);
        assert(pods@ == input.skip(k + 1));
        proof {
            reveal(Seq::filter);
            assert(input.take(k + 1).drop_last() == input.take(k as int));
        }
        if is_managed(&p) {
            kept.push(p);
        }
        k = k + 1;
    }
    assert(input.take(n as int) == input);
    kept
}

/// A node's farm label reads "true" exactly when the node takes farm work.
pub open spec fn label_schedulable(value: Option<Seq<char>>) -> bool {
    value == Some("true"@)
}

/// Whether a node with this farm label value takes farm work: only the
/// value "true" says so; any other value, or none, says not.
pub fn schedulable_from_label(value: &Option<String>) -> (r: bool)
    ensures
        r == label_schedulable(opt_view(*value)),
{
    match value {
        Some(v) => *v == String::from_str("true"),
        None => false,
    }
}

/// The farm label value that marks a node as taking farm work or not.
pub open spec fn schedulable_text(schedulable: bool) -> Seq<char> {
    if schedulable {
        "true"@
    } else {
        "false"@
    }
}

/// The farm label value to write for `schedulable`.
pub fn schedulable_label_value(schedulable: bool) -> (r: String)
    ensures
        r@ == schedulable_text(schedulable),
        label_schedulable(Some(r@)) == schedulable,
{
    proof {
        reveal_strlit("true");
        reveal_strlit("false");
    }
    if schedulable {
        String::from_str("true")
    } else {
        String::from_str("false")
    }
}

/// The job `name` belongs to the family of `controller`: the last
/// `-`-separated parts of the two agree.
pub open spec fn in_family(controller: Seq<char>, name: Seq<char>) -> bool {
    last_segment(name) == last_segment(controller)
}

/// The names of the jobs, among `job_names`, of the family of `controller`,
/// in their order: the jobs that cancelling that family deletes.
pub fn jobs_to_cancel(controller: &str, job_names: &Vec<String>) -> (r: Vec<String>)
    ensures
        string_views(r@) == string_views(job_names@).filter(|n: Seq<char>| in_family(controller@, n)),
{
    let key = crate::snapshot::controller_suffix(controller);
    let mut family: Vec<String> = Vec::new();
    let mut i: usize = 0;
    while i < job_names.len()
        invariant
            i <= job_names@.len(),
            key@ == last_segment(controller@),
            string_views(family@) == string_views(job_names@.take(i as int)).filter(
                |n: Seq<char>| in_family(controller@, n),
            ),
        decreases job_names@.len() - i,
    {
        proof {
            reveal(Seq::filter);
            let pre = string_views(job_names@.take(i + 1));
            assert(pre.drop_last() == string_views(job_names@.take(i as int)));
            assert(pre.last() == job_names@[i as int]@);
        }
        let name = &job_names[i];
        let suffix = crate::snapshot::controller_suffix(name.as_str());
        if suffix == key {
            let ghost before = family@;
            family.push(name.clone());
            assert(string_views(family@) == string_views(before).push(name@));
        }
        i = i + 1;
    }
    assert(job_names@.take(job_names@.len() as int) == job_names@);
    family
}

} // verus!
