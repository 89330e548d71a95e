//! Request and response shapes of the VPS, tag, alert and script API, and
//! the decisions its handlers make on them.

use vstd::prelude::*;
use crate::errors::AppError;
use crate::traffic::TrafficCounters;
use crate::text::{concat_str, decimal, u64_to_decimal};
use crate::monitor::contains_id;
use crate::batch::uuid_hyphenated_text;

verus! {

/// The embedded frontend files.
#[derive(Debug)]
pub struct Assets;

/// What the static file service answers for a path that has no file.
#[derive(Clone, Copy, Debug, PartialEq, Eq, Structural)]
pub enum FallbackBehavior {
    NotFound,
    Redirect,
    OkStatus,
}

/// How the embedded frontend is served.
#[derive(Debug)]
pub struct StaticFileService {
    pub index_file: Option<String>,
    pub fallback_behavior: FallbackBehavior,
    pub fallback_file: Option<String>,
}

/// The frontend is served with `index.html` as index and as the answer
/// (with status OK) for every unknown path, so that client-side routes work.
pub fn create_static_file_service() -> (r: StaticFileService)
    ensures
        r.index_file matches Some(i) && i@ == "index.html"@,
        r.fallback_behavior == FallbackBehavior::OkStatus,
        r.fallback_file matches Some(f) && f@ == "index.html"@,
{
    StaticFileService {
        index_file: Some("index.html".to_string()),
        fallback_behavior: FallbackBehavior::OkStatus,
        fallback_file: Some("index.html".to_string()),
    }
}

/// API request to create a VPS.
#[derive(Debug)]
pub struct CreateVpsRequest {
    pub name: String,
}

/// Calls `uuid::Uuid::new_v4` and formats the UUID with its `Display`
/// impl. The UUID is random; the contract claims what the uuid crate's
/// source shows of every outcome: it is the hyphenated text of some UUID,
/// whose version digit is `4` and whose variant digit is one of `8`, `9`,
/// `a` and `b` (`new_v4` masks those bits in).
#[verifier::external_body]
fn random_agent_secret() -> (s: String)
    ensures
        exists|id: u128| s@ == #[trigger] uuid_hyphenated_text(id),
        s@.len() == 36,
        s@[14] == '4',
        s@[19] == '8' || s@[19] == '9' || s@[19] == 'a' || s@[19] == 'b',
{
    uuid::Uuid::new_v4().to_string()
}

/// A VPS as it is first stored.
#[derive(Debug)]
pub struct NewVps {
    pub user_id: i32,
    pub name: String,
    pub agent_secret: String,
    pub status: String,
    pub config_status: String,
    pub traffic: TrafficCounters,
}

/// A new VPS of a user: a fresh random agent secret (a version 4 UUID),
/// status `pending`, configuration status `unknown`, and all traffic
/// counters at zero.
pub fn new_vps(user_id: i32, name: &str) -> (r: NewVps)
    ensures
        r.user_id == user_id,
        r.name@ == name@,
        exists|id: u128| r.agent_secret@ == #[trigger] uuid_hyphenated_text(id),
        r.agent_secret@.len() == 36,
        r.agent_secret@[14] == '4',
        r.agent_secret@[19] == '8' || r.agent_secret@[19] == '9' || r.agent_secret@[19] == 'a'
            || r.agent_secret@[19] == 'b',
        r.status@ == "pending"@,
        r.config_status@ == "unknown"@,
        r.traffic == (TrafficCounters {
            current_cycle_rx_bytes: Some(0),
            current_cycle_tx_bytes: Some(0),
            last_processed_cumulative_rx: Some(0),
            last_processed_cumulative_tx: Some(0),
        }),
{
    NewVps {
        user_id,
        name: name.to_string(),
        agent_secret: random_agent_secret(),
        status: "pending".to_string(),
        config_status: "unknown".to_string(),
        traffic: TrafficCounters {
            current_cycle_rx_bytes: Some(0),
            current_cycle_tx_bytes: Some(0),
            last_processed_cumulative_rx: Some(0),
            last_processed_cumulative_tx: Some(0),
        },
    }
}

/// API request to tag a VPS.
#[derive(Debug)]
pub struct AddTagToVpsRequest {
    pub tag_id: i32,
}

/// API request to add and remove tags on several VPS.
#[derive(Debug)]
pub struct BulkUpdateTagsRequest {
    pub vps_ids: Vec<i32>,
    pub add_tag_ids: Vec<i32>,
    pub remove_tag_ids: Vec<i32>,
}

/// API request to make several agents check for updates.
#[derive(Debug)]
pub struct BulkTriggerUpdateCheckRequest {
    pub vps_ids: Vec<i32>,
}

/// API response to a bulk action.
#[derive(Debug)]
pub struct BulkActionResponse {
    pub message: String,
    pub successful_count: u32,
    pub failed_count: u32,
}

/// API request to create a tag.
#[derive(Debug)]
pub struct CreateTagRequest {
    pub name: String,
    pub color: String,
    pub icon: Option<String>,
    pub url: Option<String>,
    pub is_visible: Option<bool>,
}

/// API request to update a tag.
#[derive(Debug)]
pub struct UpdateTagRequest {
    pub name: String,
    pub color: String,
    pub icon: Option<String>,
    pub url: Option<String>,
    pub is_visible: bool,
}

/// The stored fields of a tag.
#[derive(Debug)]
pub struct TagFields {
    pub name: String,
    pub color: String,
    pub icon: Option<String>,
    pub url: Option<String>,
    pub is_visible: bool,
}

/// The fields of a new tag; a tag is visible unless the request says not.
pub fn tag_from_create_request(req: CreateTagRequest) -> (r: TagFields)
    ensures
        r.name == req.name,
        r.color == req.color,
        r.icon == req.icon,
        r.url == req.url,
        r.is_visible == (match req.is_visible { Some(v) => v, None => true }),
{
    TagFields {
        name: req.name,
        color: req.color,
        icon: req.icon,
        url: req.url,
        is_visible: match req.is_visible { Some(v) => v, None => true },
    }
}

/// The fields of an updated tag: everything is replaced.
pub fn tag_from_update_request(req: UpdateTagRequest) -> (r: TagFields)
    ensures
        r.name == req.name,
        r.color == req.color,
        r.icon == req.icon,
        r.url == req.url,
        r.is_visible == req.is_visible,
{
    TagFields { name: req.name, color: req.color, icon: req.icon, url: req.url, is_visible: req.is_visible }
}

/// The (VPS, tag) links a bulk update adds: every VPS with every tag, VPS by
/// VPS.
pub open spec fn spec_tag_links(vps_ids: Seq<i32>, tag_ids: Seq<i32>) -> Seq<(i32, i32)>
    decreases vps_ids.len(),
{
    if vps_ids.len() == 0 {
        Seq::empty()
    } else {
        spec_tag_links(vps_ids.drop_last(), tag_ids) + tag_ids.map_values(|t: i32| (vps_ids.last(), t))
    }
}

/// The (VPS, tag) links a bulk update adds.
pub fn tag_links_to_add(vps_ids: &Vec<i32>, tag_ids: &Vec<i32>) -> (r: Vec<(i32, i32)>)
    ensures
        r@ == spec_tag_links(vps_ids@, tag_ids@),
{
    let mut out: Vec<(i32, i32)> = Vec::new();
    let mut i: usize = 0;
    while i < vps_ids.len()
        invariant
            i <= vps_ids.len(),
            out@ == spec_tag_links(vps_ids@.take(i as int), tag_ids@),
        decreases vps_ids.len() - i,
    {
        let v = vps_ids[i];
        let ghost before = out@;
        let mut k: usize = 0;
        while k < tag_ids.len()
            invariant
                k <= tag_ids.len(),
                out@ == before + tag_ids@.take(k as int).map_values(|t: i32| (v, t)),
            decreases tag_ids.len() - k,
        {
            out.push((v, tag_ids[k]));
            assert(tag_ids@.take(k + 1).map_values(|t: i32| (v, t)) =~= tag_ids@.take(k as int).map_values(
                |t: i32| (v, t),
            ).push((v, tag_ids@[k as int])));
            k = k + 1;
        }
        assert(tag_ids@.take(k as int) =~= tag_ids@);
        assert(vps_ids@.take(i + 1).drop_last() =~= vps_ids@.take(i as int));
        assert(vps_ids@.take(i + 1).last() == v);
        i = i + 1;
    }
    assert(vps_ids@.take(i as int) =~= vps_ids@);
    out
}

/// A bulk update links exactly the named VPS with exactly the named tags:
/// a pair is added if and only if its VPS and its tag are both named.
pub proof fn lemma_tag_links_are_all_pairs(vps_ids: Seq<i32>, tag_ids: Seq<i32>, v: i32, t: i32)
    ensures
        spec_tag_links(vps_ids, tag_ids).contains((v, t)) <==> (vps_ids.contains(v) && tag_ids.contains(t)),
    decreases vps_ids.len(),
{
    if vps_ids.len() > 0 {
        let rest = vps_ids.drop_last();
        let last = vps_ids.last();
        let block = tag_ids.map_values(|x: i32| (last, x));
        lemma_tag_links_are_all_pairs(rest, tag_ids, v, t);
        let links = spec_tag_links(vps_ids, tag_ids);
        let before = spec_tag_links(rest, tag_ids);
        assert(links == before + block);
        if links.contains((v, t)) {
            let k = choose|k: int| 0 <= k < links.len() && links[k] == (v, t);
            if k < before.len() {
                assert(before[k] == (v, t));
                let j = choose|j: int| 0 <= j < rest.len() && rest[j] == v;
                assert(vps_ids[j] == v);
            } else {
                assert(block[k - before.len()] == (v, t));
                assert(vps_ids[vps_ids.len() - 1] == v);
                assert(tag_ids[k - before.len()] == t);
            }
        }
        if vps_ids.contains(v) && tag_ids.contains(t) {
            let j = choose|j: int| 0 <= j < vps_ids.len() && vps_ids[j] == v;
            let i = choose|i: int| 0 <= i < tag_ids.len() && tag_ids[i] == t;
            if j < vps_ids.len() - 1 {
                assert(rest[j] == v);
                let k = choose|k: int| 0 <= k < before.len() && before[k] == (v, t);
                assert(links[k] == (v, t));
            } else {
                assert(block[i] == (v, t));
                assert(links[before.len() + i] == (v, t));
            }
        }
    }
}

/// What a bulk tag update does: nothing when it names no VPS and no tags;
/// otherwise it requires the user to own every VPS named (refused with a
/// database error), then adds the links (when there are VPS and tags to add)
/// and removes the links (when there are VPS and tags to remove).
#[derive(Debug, PartialEq, Eq, Structural)]
pub enum BulkTagsDecision {
    NothingToDo,
    NotOwner,
    Apply { add_links: bool, remove_links: bool },
}

/// Decides a bulk tag update from its request and the number of the named
/// VPS that the user owns.
pub fn bulk_tags_decision(vps_count: usize, add_count: usize, remove_count: usize, owned_count: u64) -> (r: BulkTagsDecision)
    ensures
        vps_count == 0 && add_count == 0 && remove_count == 0 ==> r == BulkTagsDecision::NothingToDo,
        !(vps_count == 0 && add_count == 0 && remove_count == 0) && vps_count != 0 && owned_count != vps_count
            ==> r == BulkTagsDecision::NotOwner,
        !(vps_count == 0 && add_count == 0 && remove_count == 0) && (vps_count == 0 || owned_count == vps_count)
            ==> r == (BulkTagsDecision::Apply {
            add_links: add_count != 0 && vps_count != 0,
            remove_links: remove_count != 0 && vps_count != 0,
        }),
{
    if vps_count == 0 && add_count == 0 && remove_count == 0 {
        return BulkTagsDecision::NothingToDo;
    }
    if vps_count != 0 && owned_count != vps_count as u64 {
        return BulkTagsDecision::NotOwner;
    }
    BulkTagsDecision::Apply { add_links: add_count != 0 && vps_count != 0, remove_links: remove_count != 0 && vps_count != 0 }
}

/// The error a bulk tag update is refused with, if it is refused: one that
/// names a VPS the user does not own.
pub fn bulk_tags_refusal(decision: &BulkTagsDecision) -> (r: Option<String>)
    ensures
        *decision == BulkTagsDecision::NotOwner ==> (r matches Some(m) && m@
            == "Authorization failed: User does not own all specified VPS"@),
        *decision != BulkTagsDecision::NotOwner ==> r is None,
{
    match decision {
        BulkTagsDecision::NotOwner => Some("Authorization failed: User does not own all specified VPS".to_string()),
        _ => None,
    }
}

/// Whether a bulk update removes a (VPS, tag) link: its VPS is named and its
/// tag is to be removed.
pub open spec fn removed_link(vps_ids: Seq<i32>, remove: Seq<i32>, p: (i32, i32)) -> bool {
    vps_ids.contains(p.0) && remove.contains(p.1)
}

/// Whether a (VPS, tag) link exists after a bulk update: the links are added
/// first (an existing link is kept as it is) and removed afterwards, so a tag
/// both added and removed ends up removed.
pub open spec fn spec_link_after(
    links: Seq<(i32, i32)>,
    vps_ids: Seq<i32>,
    add: Seq<i32>,
    remove: Seq<i32>,
    p: (i32, i32),
) -> bool {
    (links.contains(p) || (vps_ids.contains(p.0) && add.contains(p.1))) && !removed_link(vps_ids, remove, p)
}

proof fn lemma_push_contains(s: Seq<(i32, i32)>, x: (i32, i32), p: (i32, i32))
    ensures
        s.push(x).contains(p) <==> (s.contains(p) || p == x),
{
    if s.push(x).contains(p) {
        let k = choose|k: int| 0 <= k < s.push(x).len() && s.push(x)[k] == p;
        if k < s.len() {
            assert(s[k] == p);
        }
    }
    if s.contains(p) {
        let k = choose|k: int| 0 <= k < s.len() && s[k] == p;
        assert(s.push(x)[k] == p);
    }
    if p == x {
        assert(s.push(x)[s.len() as int] == x);
    }
}

proof fn lemma_take_next_contains(s: Seq<i32>, i: int, x: i32)
    requires
        0 <= i < s.len(),
    ensures
        s.take(i + 1).contains(x) <==> (s.take(i).contains(x) || s[i] == x),
{
    let t = s.take(i);
    let t1 = s.take(i + 1);
    assert(t1 =~= t.push(s[i]));
    if t1.contains(x) {
        let k = choose|k: int| 0 <= k < t1.len() && #[trigger] t1[k] == x;
        if k < i {
            assert(t[k] == x);
        }
    }
    if t.contains(x) {
        let k = choose|k: int| 0 <= k < t.len() && #[trigger] t[k] == x;
        assert(t1[k] == x);
    }
    if s[i] == x {
        assert(t1[i] == x);
    }
}

proof fn lemma_take_next_contains_pair(s: Seq<(i32, i32)>, i: int, x: (i32, i32))
    requires
        0 <= i < s.len(),
    ensures
        s.take(i + 1).contains(x) <==> (s.take(i).contains(x) || s[i] == x),
{
    assert(s.take(i + 1) =~= s.take(i).push(s[i]));
    lemma_push_contains(s.take(i), s[i], x);
}

/// The (VPS, tag) links after a bulk update of the current `links`.
pub fn links_after_bulk_update(
    links: &Vec<(i32, i32)>,
    vps_ids: &Vec<i32>,
    add: &Vec<i32>,
    remove: &Vec<i32>,
) -> (r: Vec<(i32, i32)>)
    ensures
        forall|p: (i32, i32)| #[trigger] r@.contains(p) <==> spec_link_after(links@, vps_ids@, add@, remove@, p),
{
    let mut out: Vec<(i32, i32)> = Vec::new();
    let mut i: usize = 0;
    while i < links.len()
        invariant
            i <= links.len(),
            forall|p: (i32, i32)| #[trigger] out@.contains(p) <==> (links@.take(i as int).contains(p)
                && !removed_link(vps_ids@, remove@, p)),
        decreases links.len() - i,
    {
        let l = links[i];
        let rm = contains_id(vps_ids, l.0) && contains_id(remove, l.1);
        let ghost before = out@;
        if !rm {
            out.push(l);
        }
        assert forall|p: (i32, i32)| #[trigger] out@.contains(p) <==> (links@.take(i + 1).contains(p)
            && !removed_link(vps_ids@, remove@, p)) by {
            lemma_take_next_contains_pair(links@, i as int, p);
            lemma_push_contains(before, l, p);
        }
        i = i + 1;
    }
    assert(links@.take(i as int) =~= links@);
    let mut j: usize = 0;
    assert(vps_ids@.take(0) =~= Seq::<i32>::empty());
    while j < vps_ids.len()
        invariant
            j <= vps_ids.len(),
            forall|p: (i32, i32)| #[trigger] out@.contains(p) <==> ((links@.contains(p) || (vps_ids@.take(j as int).contains(p.0)
                && add@.contains(p.1))) && !removed_link(vps_ids@, remove@, p)),
        decreases vps_ids.len() - j,
    {
        let v = vps_ids[j];
        assert(vps_ids@.contains(v)) by {
            assert(vps_ids@[j as int] == v);
        }
        let mut k: usize = 0;
        assert(add@.take(0) =~= Seq::<i32>::empty());
        while k < add.len()
            invariant
                j < vps_ids.len(),
                k <= add.len(),
                v == vps_ids@[j as int],
                vps_ids@.contains(v),
                forall|p: (i32, i32)| #[trigger] out@.contains(p) <==> ((links@.contains(p) || (vps_ids@.take(j as int).contains(p.0)
                    && add@.contains(p.1)) || (p.0 == v && add@.take(k as int).contains(p.1)))
                    && !removed_link(vps_ids@, remove@, p)),
            decreases add.len() - k,
        {
            let t = add[k];
            let ghost before = out@;
            let keep = !contains_id(remove, t);
            if keep {
                out.push((v, t));
            }
            assert forall|p: (i32, i32)| #[trigger] out@.contains(p) <==> ((links@.contains(p) || (vps_ids@.take(j as int).contains(p.0)
                && add@.contains(p.1)) || (p.0 == v && add@.take(k + 1).contains(p.1)))
                && !removed_link(vps_ids@, remove@, p)) by {
                lemma_take_next_contains(add@, k as int, p.1);
                lemma_push_contains(before, (v, t), p);
                if p == (v, t) {
                    assert(add@.contains(t)) by {
                        assert(add@[k as int] == t);
                    }
                }
            }
            k = k + 1;
        }
        assert(add@.take(k as int) =~= add@);
        assert forall|p: (i32, i32)| #[trigger] out@.contains(p) <==> ((links@.contains(p) || (vps_ids@.take(j + 1).contains(p.0)
            && add@.contains(p.1))) && !removed_link(vps_ids@, remove@, p)) by {
            lemma_take_next_contains(vps_ids@, j as int, p.0);
        }
        j = j + 1;
    }
    assert(vps_ids@.take(j as int) =~= vps_ids@);
    out
}

/// After a bulk tag update, each named VPS carries its former tags and the
/// added ones, less the removed ones (removal wins), and every other VPS
/// keeps exactly the tags it had.
pub proof fn lemma_bulk_update_tags_per_vps(
    links: Seq<(i32, i32)>,
    vps_ids: Seq<i32>,
    add: Seq<i32>,
    remove: Seq<i32>,
    v: i32,
    t: i32,
)
    ensures
        vps_ids.contains(v) ==> (spec_link_after(links, vps_ids, add, remove, (v, t)) <==> ((links.contains((v, t))
            || add.contains(t)) && !remove.contains(t))),
        !vps_ids.contains(v) ==> (spec_link_after(links, vps_ids, add, remove, (v, t)) <==> links.contains((v, t))),
{
}

/// The response to a bulk update check: with no VPS named, a message saying
/// so; otherwise the number of agents reached and the number of the
/// requested VPS that were not.
pub fn bulk_update_check_response(requested: u32, successful: u32) -> (r: BulkActionResponse)
    requires
        successful <= requested,
    ensures
        requested == 0 ==> r.message@ == "No VPS IDs provided."@ && r.successful_count == 0 && r.failed_count == 0,
        requested > 0 ==> r.successful_count == successful && r.failed_count == requested - successful
            && r.message@ == "Update commands sent. Success: "@ + decimal(successful as nat)
            + ", Failed/Not Found: "@ + decimal((requested - successful) as nat) + "."@,
{
    if requested == 0 {
        return BulkActionResponse { message: "No VPS IDs provided.".to_string(), successful_count: 0, failed_count: 0 };
    }
    let failed = requested - successful;
    let s = u64_to_decimal(successful as u64);
    let f = u64_to_decimal(failed as u64);
    let a = concat_str("Update commands sent. Success: ", s.as_str());
    let b = concat_str(a.as_str(), ", Failed/Not Found: ");
    let c = concat_str(b.as_str(), f.as_str());
    let message = concat_str(c.as_str(), ".");
    BulkActionResponse { message, successful_count: successful, failed_count: failed }
}

/// Refuses a request on a VPS that belongs to another user.
pub fn check_vps_owner(owner_id: i32, user_id: i32, denial: &str) -> (r: Result<(), AppError>)
    ensures
        owner_id == user_id ==> r is Ok,
        owner_id != user_id ==> (r matches Err(AppError::Unauthorized(m)) && m@ == denial@),
{
    if owner_id != user_id {
        return Err(AppError::Unauthorized(denial.to_string()));
    }
    Ok(())
}

/// Whether a VPS update changes the VPS row itself: when any of its fields
/// is given.
pub fn vps_row_changes(
    name: bool,
    group: bool,
    traffic_limit_bytes: bool,
    traffic_billing_rule: bool,
    traffic_reset_config_type: bool,
    traffic_reset_config_value: bool,
    next_traffic_reset_at: bool,
) -> (r: bool)
    ensures
        r == (name || group || traffic_limit_bytes || traffic_billing_rule || traffic_reset_config_type
            || traffic_reset_config_value || next_traffic_reset_at),
{
    name || group || traffic_limit_bytes || traffic_billing_rule || traffic_reset_config_type
        || traffic_reset_config_value || next_traffic_reset_at
}

/// Refuses a VPS update that changes the VPS row when the VPS does not
/// exist or belongs to another user; an update that leaves the row alone is
/// not checked here.
pub fn check_vps_row_access(row_changes: bool, owned_by_user: bool) -> (r: Result<(), String>)
    ensures
        row_changes && !owned_by_user ==> (r matches Err(m) && m@ == "VPS not found or access denied"@),
        !(row_changes && !owned_by_user) ==> r is Ok,
{
    if row_changes && !owned_by_user {
        Err("VPS not found or access denied".to_string())
    } else {
        Ok(())
    }
}

/// The status code of a VPS update: 200 when something changed, 304 when
/// nothing did.
pub fn vps_update_status(row_changed: bool, tags_given: bool, renewal_given: bool) -> (r: u16)
    ensures
        r == (if row_changed || tags_given || renewal_given { 200u16 } else { 304u16 }),
{
    if row_changed || tags_given || renewal_given { 200 } else { 304 }
}

/// The status code of removing a tag from a VPS: 204 when a link was
/// removed, 404 when there was none.
pub fn remove_tag_status(rows_affected: u64) -> (r: u16)
    ensures
        r == (if rows_affected > 0 { 204u16 } else { 404u16 }),
{
    if rows_affected > 0 { 204 } else { 404 }
}

/// The status code of dismissing a renewal reminder: 200 when a reminder
/// was dismissed, 304 when none was active.
pub fn dismiss_reminder_status(rows_affected: u64) -> (r: u16)
    ensures
        r == (if rows_affected > 0 { 200u16 } else { 304u16 }),
{
    if rows_affected > 0 { 200 } else { 304 }
}

/// The cooldown of a new alert rule: five minutes unless given.
pub fn alert_cooldown_seconds(requested: Option<i32>) -> (r: i32)
    ensures
        r == (match requested { Some(c) => c, None => 300 }),
{
    match requested {
        Some(c) => c,
        None => 300,
    }
}

/// The fields of an alert rule that an update may change (the threshold is
/// handled with the rule's stored value alongside).
#[derive(Debug)]
pub struct AlertRuleFields {
    pub name: String,
    pub vps_id: Option<i32>,
    pub metric_type: String,
    pub comparison_operator: String,
    pub duration_seconds: i32,
    pub cooldown_seconds: i32,
}

/// A partial update of an alert rule; `vps_id` distinguishes "unchanged"
/// (`None`), "no VPS" (`Some(None)`) and a VPS.
#[derive(Debug)]
pub struct AlertRuleFieldsUpdate {
    pub name: Option<String>,
    pub vps_id: Option<Option<i32>>,
    pub metric_type: Option<String>,
    pub comparison_operator: Option<String>,
    pub duration_seconds: Option<i32>,
    pub cooldown_seconds: Option<i32>,
}

pub open spec fn keep_or<T>(update: Option<T>, current: T) -> T {
    match update {
        Some(v) => v,
        None => current,
    }
}

/// Applies a partial update to an alert rule.
pub fn apply_alert_rule_update(current: AlertRuleFields, update: AlertRuleFieldsUpdate) -> (r: AlertRuleFields)
    ensures
        r.name == keep_or(update.name, current.name),
        r.vps_id == keep_or(update.vps_id, current.vps_id),
        r.metric_type == keep_or(update.metric_type, current.metric_type),
        r.comparison_operator == keep_or(update.comparison_operator, current.comparison_operator),
        r.duration_seconds == keep_or(update.duration_seconds, current.duration_seconds),
        r.cooldown_seconds == keep_or(update.cooldown_seconds, current.cooldown_seconds),
{
    AlertRuleFields {
        name: match update.name { Some(v) => v, None => current.name },
        vps_id: match update.vps_id { Some(v) => v, None => current.vps_id },
        metric_type: match update.metric_type { Some(v) => v, None => current.metric_type },
        comparison_operator: match update.comparison_operator { Some(v) => v, None => current.comparison_operator },
        duration_seconds: match update.duration_seconds { Some(v) => v, None => current.duration_seconds },
        cooldown_seconds: match update.cooldown_seconds { Some(v) => v, None => current.cooldown_seconds },
    }
}

/// The command script service; its operations are database work.
#[derive(Debug)]
pub struct CommandScriptService;

/// Errors of the command script service.
#[derive(Debug)]
pub enum CommandScriptError {
    DbErr(String),
    NotFound(i32),
    Unauthorized,
    DuplicateName(String),
}

/// Refuses a new script whose name the user already uses.
pub fn check_script_name(name: String, name_taken: bool) -> (r: Result<String, CommandScriptError>)
    ensures
        name_taken ==> (r matches Err(CommandScriptError::DuplicateName(n)) && n == name),
        !name_taken ==> r == Ok::<String, CommandScriptError>(name),
{
    if name_taken {
        Err(CommandScriptError::DuplicateName(name))
    } else {
        Ok(name)
    }
}

} // verus!
