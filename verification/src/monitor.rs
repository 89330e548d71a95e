//! Service monitors: which VPS run which monitor (direct and tag-based
//! assignments, inclusive or exclusive), the id sets derived from them, and
//! the defaults and partial updates of a monitor's settings.

use vstd::prelude::*;
use std::collections::HashSet;
use crate::text::str_eq;

verus! {

broadcast use vstd::std_specs::hash::group_hash_axioms;

/// Whether an assignment type string selects exclusive assignment; every other
/// value is treated as inclusive.
pub open spec fn spec_is_exclusive(assignment_type: Seq<char>) -> bool {
    assignment_type == "EXCLUSIVE"@
}

/// Whether a VPS carries one of a monitor's tags.
pub open spec fn carries_assigned_tag(vps_tags: Seq<i32>, assigned_tags: Set<i32>) -> bool {
    exists|i: int| 0 <= i < vps_tags.len() && assigned_tags.contains(#[trigger] vps_tags[i])
}

/// Whether a monitor runs on a VPS: under inclusive assignment when the VPS is
/// assigned directly or carries one of the assigned tags; under exclusive
/// assignment when neither holds.
pub open spec fn spec_monitor_runs_on(
    exclusive: bool,
    assigned_agents: Set<i32>,
    assigned_tags: Set<i32>,
    vps_id: i32,
    vps_tags: Seq<i32>,
) -> bool {
    let direct = assigned_agents.contains(vps_id);
    let tagged = carries_assigned_tag(vps_tags, assigned_tags);
    if exclusive {
        !direct && !tagged
    } else {
        direct || tagged
    }
}

/// Whether an assignment type string selects exclusive assignment.
pub fn is_exclusive_assignment(assignment_type: &str) -> (r: bool)
    ensures
        r == spec_is_exclusive(assignment_type@),
{
    str_eq(assignment_type, "EXCLUSIVE")
}

/// Whether `v` holds `x`.
pub fn contains_id(v: &Vec<i32>, x: i32) -> (r: bool)
    ensures
        r == v@.contains(x),
{
    let mut i: usize = 0;
    while i < v.len()
        invariant
            i <= v.len(),
            forall|j: int| 0 <= j < i ==> v@[j] != x,
        decreases v.len() - i,
    {
        if v[i] == x {
            assert(v@[i as int] == x);
            return true;
        }
        i = i + 1;
    }
    false
}

/// Whether a VPS, by the tags it carries, has one of a monitor's tags.
pub fn has_assigned_tag(vps_tags: &Vec<i32>, assigned_tags: &HashSet<i32>) -> (r: bool)
    ensures
        r == carries_assigned_tag(vps_tags@, assigned_tags@),
{
    let mut i: usize = 0;
    while i < vps_tags.len()
        invariant
            i <= vps_tags.len(),
            forall|k: int| 0 <= k < i ==> !assigned_tags@.contains(#[trigger] vps_tags@[k]),
        decreases vps_tags.len() - i,
    {
        let t = vps_tags[i];
        if assigned_tags.contains(&t) {
            assert(assigned_tags@.contains(vps_tags@[i as int]));
            return true;
        }
        i = i + 1;
    }
    false
}

/// Whether a monitor runs on a VPS, given the monitor's assignment type, its
/// directly assigned VPS ids and tag ids, and the tags of the VPS.
pub fn monitor_runs_on_vps(
    assignment_type: &str,
    assigned_agents: &HashSet<i32>,
    assigned_tags: &HashSet<i32>,
    vps_id: i32,
    vps_tags: &Vec<i32>,
) -> (r: bool)
    ensures
        r == spec_monitor_runs_on(
            spec_is_exclusive(assignment_type@),
            assigned_agents@,
            assigned_tags@,
            vps_id,
            vps_tags@,
        ),
{
    let direct = assigned_agents.contains(&vps_id);
    let tagged = has_assigned_tag(vps_tags, assigned_tags);
    if is_exclusive_assignment(assignment_type) {
        !direct && !tagged
    } else {
        direct || tagged
    }
}

/// For the same assignments, an exclusive monitor runs on exactly the VPS on
/// which the inclusive one does not.
pub proof fn lemma_exclusive_is_complement(
    assigned_agents: Set<i32>,
    assigned_tags: Set<i32>,
    vps_id: i32,
    vps_tags: Seq<i32>,
)
    ensures
        spec_monitor_runs_on(true, assigned_agents, assigned_tags, vps_id, vps_tags)
            == !spec_monitor_runs_on(false, assigned_agents, assigned_tags, vps_id, vps_tags),
{
}

/// A monitor together with its assignments.
#[derive(Debug)]
pub struct MonitorAssignment {
    pub monitor_id: i32,
    pub assignment_type: String,
    pub agent_ids: HashSet<i32>,
    pub tag_ids: HashSet<i32>,
}

pub open spec fn assignment_runs_on(m: MonitorAssignment, vps_id: i32, vps_tags: Seq<i32>) -> bool {
    spec_monitor_runs_on(spec_is_exclusive(m.assignment_type@), m.agent_ids@, m.tag_ids@, vps_id, vps_tags)
}

/// The ids of the monitors in `ms` that run on the VPS, in order.
pub open spec fn spec_runnable_ids(ms: Seq<MonitorAssignment>, vps_id: i32, vps_tags: Seq<i32>) -> Seq<i32>
    decreases ms.len(),
{
    if ms.len() == 0 {
        Seq::empty()
    } else {
        let rest = spec_runnable_ids(ms.drop_last(), vps_id, vps_tags);
        if assignment_runs_on(ms.last(), vps_id, vps_tags) {
            rest.push(ms.last().monitor_id)
        } else {
            rest
        }
    }
}

/// The ids of the (active) monitors that a VPS should run, in the order given.
pub fn runnable_monitor_ids(monitors: &Vec<MonitorAssignment>, vps_id: i32, vps_tags: &Vec<i32>) -> (r: Vec<i32>)
    ensures
        r@ == spec_runnable_ids(monitors@, vps_id, vps_tags@),
        forall|x: i32| #![trigger r@.contains(x)]
            r@.contains(x) <==> exists|i: int|
                0 <= i < monitors@.len() && (#[trigger] monitors@[i]).monitor_id == x && ({
                    let m = monitors@[i];
                    let direct = m.agent_ids@.contains(vps_id);
                    let tagged = exists|k: int| 0 <= k < vps_tags@.len() && m.tag_ids@.contains(#[trigger] vps_tags@[k]);
                    if m.assignment_type@ == "EXCLUSIVE"@ { !direct && !tagged } else { direct || tagged }
                }),
{
    let mut out: Vec<i32> = Vec::new();
    let mut i: usize = 0;
    while i < monitors.len()
        invariant
            i <= monitors.len(),
            out@ == spec_runnable_ids(monitors@.take(i as int), vps_id, vps_tags@),
        decreases monitors.len() - i,
    {
        let m = &monitors[i];
        assert(monitors@.take(i + 1).drop_last() =~= monitors@.take(i as int));
        assert(monitors@.take(i + 1).last() == monitors@[i as int]);
        if monitor_runs_on_vps(m.assignment_type.as_str(), &m.agent_ids, &m.tag_ids, vps_id, vps_tags) {
            out.push(m.monitor_id);
        }
        i = i + 1;
    }
    assert(monitors@.take(i as int) =~= monitors@);
    proof {
        lemma_runnable_ids_members(monitors@, vps_id, vps_tags@);
    }
    out
}

/// A monitor id is runnable on a VPS exactly when some monitor of the list
/// with that id runs there: an inclusive monitor when the VPS is assigned
/// directly or carries one of its tags, an exclusive one when neither holds.
pub proof fn lemma_runnable_ids_members(ms: Seq<MonitorAssignment>, vps_id: i32, vps_tags: Seq<i32>)
    ensures
        forall|x: i32| #![trigger spec_runnable_ids(ms, vps_id, vps_tags).contains(x)]
            spec_runnable_ids(ms, vps_id, vps_tags).contains(x) <==> exists|i: int|
                0 <= i < ms.len() && (#[trigger] ms[i]).monitor_id == x && ({
                    let m = ms[i];
                    let direct = m.agent_ids@.contains(vps_id);
                    let tagged = exists|k: int| 0 <= k < vps_tags.len() && m.tag_ids@.contains(#[trigger] vps_tags[k]);
                    if m.assignment_type@ == "EXCLUSIVE"@ { !direct && !tagged } else { direct || tagged }
                }),
    decreases ms.len(),
{
    if ms.len() > 0 {
        let init = ms.drop_last();
        lemma_runnable_ids_members(init, vps_id, vps_tags);
        let c = ms.last();
        let out = spec_runnable_ids(ms, vps_id, vps_tags);
        let rest = spec_runnable_ids(init, vps_id, vps_tags);
        assert forall|x: i32| out.contains(x) <==> exists|i: int|
            0 <= i < ms.len() && (#[trigger] ms[i]).monitor_id == x && assignment_runs_on(ms[i], vps_id, vps_tags) by {
            if out.contains(x) {
                let k = choose|k: int| 0 <= k < out.len() && out[k] == x;
                if assignment_runs_on(c, vps_id, vps_tags) && k == rest.len() {
                    assert(ms[ms.len() - 1] == c);
                } else {
                    assert(rest[k] == x);
                    assert(rest.contains(x));
                    let i = choose|i: int| 0 <= i < init.len() && (#[trigger] init[i]).monitor_id == x
                        && assignment_runs_on(init[i], vps_id, vps_tags);
                    assert(ms[i] == init[i]);
                }
            }
            if exists|i: int| 0 <= i < ms.len() && (#[trigger] ms[i]).monitor_id == x && assignment_runs_on(ms[i], vps_id, vps_tags) {
                let i = choose|i: int| 0 <= i < ms.len() && (#[trigger] ms[i]).monitor_id == x
                    && assignment_runs_on(ms[i], vps_id, vps_tags);
                if i == ms.len() - 1 {
                    assert(out[out.len() - 1] == x);
                } else {
                    assert(init[i] == ms[i]);
                    assert(rest.contains(x));
                    let k = choose|k: int| 0 <= k < rest.len() && rest[k] == x;
                    assert(out[k] == x);
                }
            }
        }
    }
}

/// With distinct monitor ids, an exclusive monitor is never runnable on a
/// VPS that carries one of its tags, nor on one assigned to it directly.
pub proof fn lemma_exclusive_monitor_skips_excluded_vps(
    ms: Seq<MonitorAssignment>,
    vps_id: i32,
    vps_tags: Seq<i32>,
    i: int,
)
    requires
        0 <= i < ms.len(),
        forall|j: int, k: int| 0 <= j < k < ms.len() ==> ms[j].monitor_id != ms[k].monitor_id,
        ms[i].assignment_type@ == "EXCLUSIVE"@,
        ms[i].agent_ids@.contains(vps_id) || exists|k: int| 0 <= k < vps_tags.len() && ms[i].tag_ids@.contains(#[trigger] vps_tags[k]),
    ensures
        !spec_runnable_ids(ms, vps_id, vps_tags).contains(ms[i].monitor_id),
{
    lemma_runnable_ids_members(ms, vps_id, vps_tags);
    if spec_runnable_ids(ms, vps_id, vps_tags).contains(ms[i].monitor_id) {
        let j = choose|j: int| 0 <= j < ms.len() && (#[trigger] ms[j]).monitor_id == ms[i].monitor_id && ({
            let m = ms[j];
            let direct = m.agent_ids@.contains(vps_id);
            let tagged = exists|k: int| 0 <= k < vps_tags.len() && m.tag_ids@.contains(#[trigger] vps_tags[k]);
            if m.assignment_type@ == "EXCLUSIVE"@ { !direct && !tagged } else { direct || tagged }
        });
        assert(j == i);
    }
}

/// An inclusive monitor is runnable on every VPS
/// assigned to it directly or carrying one of its tags.
pub proof fn lemma_inclusive_monitor_runs_on_assigned_vps(
    ms: Seq<MonitorAssignment>,
    vps_id: i32,
    vps_tags: Seq<i32>,
    i: int,
)
    requires
        0 <= i < ms.len(),
        ms[i].assignment_type@ != "EXCLUSIVE"@,
        ms[i].agent_ids@.contains(vps_id) || exists|k: int| 0 <= k < vps_tags.len() && ms[i].tag_ids@.contains(#[trigger] vps_tags[k]),
    ensures
        spec_runnable_ids(ms, vps_id, vps_tags).contains(ms[i].monitor_id),
{
    lemma_runnable_ids_members(ms, vps_id, vps_tags);
}

/// A strictly increasing list of ids.
pub open spec fn strictly_increasing(s: Seq<i32>) -> bool {
    forall|i: int, j: int| 0 <= i < j < s.len() ==> s[i] < s[j]
}

/// Inserts `x` into a strictly increasing list, keeping it strictly increasing
/// and adding nothing else.
fn insert_sorted(v: &mut Vec<i32>, x: i32)
    requires
        strictly_increasing(old(v)@),
    ensures
        strictly_increasing(final(v)@),
        final(v)@.to_set() == old(v)@.to_set().insert(x),
{
    let mut i: usize = 0;
    while i < v.len() && v[i] < x
        invariant
            i <= v.len(),
            v@ == old(v)@,
            strictly_increasing(v@),
            forall|j: int| 0 <= j < i ==> v@[j] < x,
        decreases v.len() - i,
    {
        i = i + 1;
    }
    if i < v.len() && v[i] == x {
        assert(old(v)@.to_set().insert(x) =~= old(v)@.to_set()) by {
            assert(old(v)@.to_set().contains(x)) by {
                assert(old(v)@[i as int] == x);
            }
        }
        return;
    }
    let ghost pre = v@;
    v.insert(i, x);
    assert(v@ =~= pre.subrange(0, i as int).push(x) + pre.subrange(i as int, pre.len() as int));
    assert forall|a: int, b: int| 0 <= a < b < v@.len() implies v@[a] < v@[b] by {
        if b < i {
        } else if b == i {
        } else if a == i {
            assert(v@[b] == pre[b - 1]);
            assert(i < pre.len() ==> pre[i as int] >= x);
            assert(pre[i as int] != x);
        } else if a < i {
            assert(v@[b] == pre[b - 1]);
        } else {
            assert(v@[a] == pre[a - 1]);
            assert(v@[b] == pre[b - 1]);
        }
    }
    assert forall|y: i32| v@.to_set().contains(y) <==> pre.to_set().insert(x).contains(y) by {
        if v@.to_set().contains(y) {
            let k = choose|k: int| 0 <= k < v@.len() && v@[k] == y;
            if k < i {
                assert(pre[k] == y);
            } else if k > i {
                assert(pre[k - 1] == y);
            }
        }
        if pre.to_set().contains(y) && y != x {
            let k = choose|k: int| 0 <= k < pre.len() && pre[k] == y;
            if k < i {
                assert(v@[k] == y);
            } else {
                assert(v@[k + 1] == y);
            }
        }
        if y == x {
            assert(v@[i as int] == x);
        }
    }
    assert(v@.to_set() =~= pre.to_set().insert(x));
}

/// Merges two id lists into one sorted list without duplicates.
pub fn union_sorted_dedup(a: &Vec<i32>, b: &Vec<i32>) -> (r: Vec<i32>)
    ensures
        strictly_increasing(r@),
        r@.to_set() == a@.to_set().union(b@.to_set()),
{
    let mut out: Vec<i32> = Vec::new();
    let mut i: usize = 0;
    assert(out@.to_set() =~= a@.take(0).to_set());
    while i < a.len()
        invariant
            i <= a.len(),
            strictly_increasing(out@),
            out@.to_set() == a@.take(i as int).to_set(),
        decreases a.len() - i,
    {
        insert_sorted(&mut out, a[i]);
        assert(a@.take(i + 1) =~= a@.take(i as int).push(a@[i as int]));
        proof {
            a@.take(i as int).lemma_push_to_set_commute(a@[i as int]);
        }
        i = i + 1;
    }
    assert(a@.take(i as int) =~= a@);
    let mut k: usize = 0;
    assert(b@.take(0).to_set() =~= Set::<i32>::empty());
    assert(a@.to_set().union(b@.take(0).to_set()) =~= a@.to_set());
    while k < b.len()
        invariant
            k <= b.len(),
            strictly_increasing(out@),
            out@.to_set() == a@.to_set().union(b@.take(k as int).to_set()),
        decreases b.len() - k,
    {
        insert_sorted(&mut out, b[k]);
        assert(b@.take(k + 1) =~= b@.take(k as int).push(b@[k as int]));
        proof {
            b@.take(k as int).lemma_push_to_set_commute(b@[k as int]);
        }
        assert(out@.to_set() =~= a@.to_set().union(b@.take(k + 1).to_set()));
        k = k + 1;
    }
    assert(b@.take(k as int) =~= b@);
    out
}


/// The ids of `all` that are not in `excluded`, in order.
pub open spec fn spec_without(all: Seq<i32>, excluded: Set<i32>) -> Seq<i32>
    decreases all.len(),
{
    if all.len() == 0 {
        Seq::empty()
    } else {
        let rest = spec_without(all.drop_last(), excluded);
        if excluded.contains(all.last()) {
            rest
        } else {
            rest.push(all.last())
        }
    }
}

/// The VPS ids that should run a monitor: under inclusive assignment the
/// directly assigned VPS together with those carrying an assigned tag, sorted
/// and without duplicates; under exclusive assignment every other VPS, in the
/// order of `all_vps_ids`.
pub open spec fn spec_vps_ids_for_monitor_ok(
    r: Seq<i32>,
    exclusive: bool,
    assigned: Seq<i32>,
    from_tags: Seq<i32>,
    all_vps_ids: Seq<i32>,
) -> bool {
    if exclusive {
        r == spec_without(all_vps_ids, assigned.to_set().union(from_tags.to_set()))
    } else {
        strictly_increasing(r) && r.to_set() == assigned.to_set().union(from_tags.to_set())
    }
}

/// The VPS ids that should run a monitor, from its assignment type, its
/// directly assigned VPS ids, the VPS ids that carry one of its tags, and
/// the ids of all VPS.
pub fn vps_ids_for_monitor(
    assignment_type: &str,
    assigned: &Vec<i32>,
    from_tags: &Vec<i32>,
    all_vps_ids: &Vec<i32>,
) -> (r: Vec<i32>)
    ensures
        spec_vps_ids_for_monitor_ok(r@, spec_is_exclusive(assignment_type@), assigned@, from_tags@, all_vps_ids@),
{
    let combined = union_sorted_dedup(assigned, from_tags);
    if !is_exclusive_assignment(assignment_type) {
        return combined;
    }
    let ghost excluded = assigned@.to_set().union(from_tags@.to_set());
    let mut out: Vec<i32> = Vec::new();
    let mut i: usize = 0;
    while i < all_vps_ids.len()
        invariant
            i <= all_vps_ids.len(),
            combined@.to_set() == excluded,
            out@ == spec_without(all_vps_ids@.take(i as int), excluded),
        decreases all_vps_ids.len() - i,
    {
        let id = all_vps_ids[i];
        assert(all_vps_ids@.take(i + 1).drop_last() =~= all_vps_ids@.take(i as int));
        let inside = contains_id(&combined, id);
        assert(inside == combined@.to_set().contains(id));
        if !inside {
            out.push(id);
        }
        i = i + 1;
    }
    assert(all_vps_ids@.take(i as int) =~= all_vps_ids@);
    out
}

/// Under exclusive assignment no VPS that is assigned, directly or by tag,
/// is selected, and every other VPS is.
pub proof fn lemma_exclusive_selection(all: Seq<i32>, excluded: Set<i32>, x: i32)
    ensures
        spec_without(all, excluded).contains(x) <==> (all.contains(x) && !excluded.contains(x)),
    decreases all.len(),
{
    if all.len() > 0 {
        lemma_exclusive_selection(all.drop_last(), excluded, x);
        let rest = spec_without(all.drop_last(), excluded);
        if all.contains(x) && !excluded.contains(x) {
            let k = choose|k: int| 0 <= k < all.len() && all[k] == x;
            if k < all.len() - 1 {
                assert(all.drop_last()[k] == x);
            }
        }
        if spec_without(all, excluded).contains(x) {
            if !excluded.contains(all.last()) && x == all.last() {
                assert(all[all.len() - 1] == x);
            } else {
                assert(rest.contains(x)) by {
                    let k = choose|k: int| 0 <= k < spec_without(all, excluded).len() && spec_without(all, excluded)[k] == x;
                    if !excluded.contains(all.last()) {
                        assert(k < rest.len());
                        assert(rest[k] == x);
                    }
                }
                let k = choose|k: int| 0 <= k < all.drop_last().len() && all.drop_last()[k] == x;
                assert(all[k] == x);
            }
        }
        if all.contains(x) && !excluded.contains(x) {
            if x == all.last() {
                assert(spec_without(all, excluded)[rest.len() as int] == x);
            } else {
                let k = choose|k: int| 0 <= k < rest.len() && rest[k] == x;
                if !excluded.contains(all.last()) {
                    assert(spec_without(all, excluded)[k] == x);
                }
            }
        }
    }
}

/// The label of a monitor's latest result.
pub fn monitor_status_label(is_up: bool) -> (r: &'static str)
    ensures
        r@ == (if is_up { "UP"@ } else { "DOWN"@ }),
{
    if is_up { "UP" } else { "DOWN" }
}

/// The settings of a service monitor that the API can change.
#[derive(Debug)]
pub struct MonitorSettings {
    pub name: String,
    pub monitor_type: String,
    pub target: String,
    pub frequency_seconds: i32,
    pub timeout_seconds: i32,
    pub is_active: bool,
    pub assignment_type: String,
    /// The type-specific configuration, as JSON text.
    pub monitor_config: Option<String>,
}

/// The settings of a new monitor: a check every 60 seconds, a 10 second
/// timeout, active, and inclusive assignment, unless the request says
/// otherwise.
pub fn new_monitor_settings(
    name: String,
    monitor_type: String,
    target: String,
    frequency_seconds: Option<i32>,
    timeout_seconds: Option<i32>,
    is_active: Option<bool>,
    assignment_type: Option<String>,
    monitor_config: Option<String>,
) -> (r: MonitorSettings)
    ensures
        r.name == name,
        r.monitor_type == monitor_type,
        r.target == target,
        r.frequency_seconds == (match frequency_seconds { Some(f) => f, None => 60 }),
        r.timeout_seconds == (match timeout_seconds { Some(t) => t, None => 10 }),
        r.is_active == (match is_active { Some(a) => a, None => true }),
        r.assignment_type@ == (match assignment_type { Some(a) => a@, None => "INCLUSIVE"@ }),
        r.monitor_config == monitor_config,
{
    let frequency = match frequency_seconds { Some(f) => f, None => 60 };
    let timeout = match timeout_seconds { Some(t) => t, None => 10 };
    let active = match is_active { Some(a) => a, None => true };
    let kind = match assignment_type { Some(a) => a, None => "INCLUSIVE".to_string() };
    MonitorSettings {
        name,
        monitor_type,
        target,
        frequency_seconds: frequency,
        timeout_seconds: timeout,
        is_active: active,
        assignment_type: kind,
        monitor_config,
    }
}

/// A partial update of a monitor's settings; absent fields are kept.
#[derive(Debug)]
pub struct MonitorSettingsUpdate {
    pub name: Option<String>,
    pub monitor_type: Option<String>,
    pub target: Option<String>,
    pub frequency_seconds: Option<i32>,
    pub timeout_seconds: Option<i32>,
    pub is_active: Option<bool>,
    pub assignment_type: Option<String>,
    pub monitor_config: Option<String>,
}

pub open spec fn pick<T>(update: Option<T>, current: T) -> T {
    match update {
        Some(v) => v,
        None => current,
    }
}

/// Applies a partial update: each field given replaces the current one.
pub fn apply_monitor_update(current: MonitorSettings, update: MonitorSettingsUpdate) -> (r: MonitorSettings)
    ensures
        r.name == pick(update.name, current.name),
        r.monitor_type == pick(update.monitor_type, current.monitor_type),
        r.target == pick(update.target, current.target),
        r.frequency_seconds == pick(update.frequency_seconds, current.frequency_seconds),
        r.timeout_seconds == pick(update.timeout_seconds, current.timeout_seconds),
        r.is_active == pick(update.is_active, current.is_active),
        r.assignment_type == pick(update.assignment_type, current.assignment_type),
        r.monitor_config == (if update.monitor_config is Some { update.monitor_config } else { current.monitor_config }),
{
    MonitorSettings {
        name: match update.name { Some(v) => v, None => current.name },
        monitor_type: match update.monitor_type { Some(v) => v, None => current.monitor_type },
        target: match update.target { Some(v) => v, None => current.target },
        frequency_seconds: match update.frequency_seconds { Some(v) => v, None => current.frequency_seconds },
        timeout_seconds: match update.timeout_seconds { Some(v) => v, None => current.timeout_seconds },
        is_active: match update.is_active { Some(v) => v, None => current.is_active },
        assignment_type: match update.assignment_type { Some(v) => v, None => current.assignment_type },
        monitor_config: match update.monitor_config { Some(v) => Some(v), None => current.monitor_config },
    }
}

/// New assignments of a monitor, given as a whole: the directly assigned
/// VPS ids and the assigned tag ids (absent lists mean none).
#[derive(Debug)]
pub struct AssignmentsUpdate {
    pub agent_ids: Option<Vec<i32>>,
    pub tag_ids: Option<Vec<i32>>,
}

pub open spec fn ids_or_none(ids: Option<Vec<i32>>) -> Seq<i32> {
    match ids {
        Some(v) => v@,
        None => Seq::empty(),
    }
}

/// The assignments of a monitor after an update: kept when the update names
/// no assignments, and otherwise cleared and replaced by the ones it names.
pub fn apply_assignments_update(
    agent_ids: Vec<i32>,
    tag_ids: Vec<i32>,
    update: Option<AssignmentsUpdate>,
) -> (r: (Vec<i32>, Vec<i32>))
    ensures
        update is None ==> r.0@ == agent_ids@ && r.1@ == tag_ids@,
        update matches Some(u) ==> r.0@ == ids_or_none(u.agent_ids) && r.1@ == ids_or_none(u.tag_ids),
{
    match update {
        None => (agent_ids, tag_ids),
        Some(u) => {
            let agents = match u.agent_ids { Some(v) => v, None => Vec::new() };
            let tags = match u.tag_ids { Some(v) => v, None => Vec::new() };
            (agents, tags)
        },
    }
}

/// The ids assigned to a monitor by assignment rows `(monitor id, id)`, in
/// the order of the rows.
pub open spec fn spec_assigned_ids(rows: Seq<(i32, i32)>, monitor_id: i32) -> Seq<i32>
    decreases rows.len(),
{
    if rows.len() == 0 {
        Seq::empty()
    } else {
        let rest = spec_assigned_ids(rows.drop_last(), monitor_id);
        if rows.last().0 == monitor_id {
            rest.push(rows.last().1)
        } else {
            rest
        }
    }
}

/// Groups assignment rows by monitor: the ids assigned to one monitor (none
/// when it has no rows).
pub fn assigned_ids(rows: &Vec<(i32, i32)>, monitor_id: i32) -> (r: Vec<i32>)
    ensures
        r@ == spec_assigned_ids(rows@, monitor_id),
{
    let mut out: Vec<i32> = Vec::new();
    let mut i: usize = 0;
    while i < rows.len()
        invariant
            i <= rows.len(),
            out@ == spec_assigned_ids(rows@.take(i as int), monitor_id),
        decreases rows.len() - i,
    {
        let (m, id) = rows[i];
        assert(rows@.take(i + 1).drop_last() =~= rows@.take(i as int));
        if m == monitor_id {
            out.push(id);
        }
        i = i + 1;
    }
    assert(rows@.take(i as int) =~= rows@);
    out
}

/// Refuses a change to a monitor that the user does not own (or that does
/// not exist): both are answered alike.
pub fn check_monitor_access(owned_by_user: bool) -> (r: Result<(), String>)
    ensures
        owned_by_user ==> r is Ok,
        !owned_by_user ==> (r matches Err(m) && m@ == "Monitor not found or permission denied"@),
{
    if owned_by_user {
        Ok(())
    } else {
        Err("Monitor not found or permission denied".to_string())
    }
}

} // verus!
