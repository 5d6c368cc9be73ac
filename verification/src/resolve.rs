//! From the names a user types to the identifiers the service uses: teams
//! (with the cache), workflow states, labels and issues.

use vstd::prelude::*;
use vstd::utf8::encode_utf8;
use crate::cache::{Cache, CachedTeam};
use crate::commands::labels::Label;
use crate::error::{ErrorView, LinearError};
use crate::find::{first_where, lemma_first_where, lemma_first_where_agree, lemma_first_where_is};
use crate::responses::WorkflowStateNode;
use crate::text::{contains_char, lowercase, same_name, same_text};
use crate::types::Team;

verus! {

/// The state type of the states that end an issue's work.
pub const COMPLETED: &'static str = "completed";

/// The state name that the close shortcut asks for.
pub const CLOSED_NAME: &'static str = "Done";

/// The assignee that stands for the authenticated user.
pub const ME: &'static str = "me";

/* Workflow states */

/// Whether a state answers a name: the names are equal without regard to
/// case, and the state is a completed one where only such a state will do.
pub open spec fn state_hit(name: Seq<char>, completed_only: bool) -> spec_fn(
    WorkflowStateNode,
) -> bool {
    |s: WorkflowStateNode|
        same_name(s.name@, name) && (completed_only ==> s.state_type@ == COMPLETED@)
}

/// The identifier of the first state that answers the name.
pub open spec fn resolved_state(
    states: Seq<WorkflowStateNode>,
    name: Seq<char>,
    completed_only: bool,
) -> Option<Seq<char>> {
    let k = first_where(states, state_hit(name, completed_only));
    if k < states.len() {
        Some(states[k].id@)
    } else {
        None
    }
}

/// Resolves a status name among the workflow states of a team. The first
/// state whose name equals `name` without regard to case wins; with
/// `completed_only` a state counts only if its type is `completed`.
pub fn find_state(states: &Vec<WorkflowStateNode>, name: &str, completed_only: bool) -> (r: Result<
    String,
    LinearError,
>)
    ensures
        match resolved_state(states@, name@, completed_only) {
            Some(id) => r matches Ok(got) && got@ == id,
            None => r matches Err(e) && e@ == ErrorView::WorkflowStateNotFound(name@),
        },
{
    let wanted = name.to_lowercase();
    let completed = String::from_str(COMPLETED);
    let ghost hit = state_hit(name@, completed_only);
    let mut i: usize = 0;
    while i < states.len()
        invariant
            i <= states.len(),
            wanted@ == lowercase(name@),
            completed@ == COMPLETED@,
            hit == state_hit(name@, completed_only),
            forall|j: int| 0 <= j < i ==> !hit(#[trigger] states@[j]),
        decreases states.len() - i,
    {
        let lower = states[i].name.as_str().to_lowercase();
        if lower == wanted && (!completed_only || states[i].state_type == completed) {
            proof {
                lemma_first_where_is(states@, hit, i as int);
            }
            return Ok(states[i].id.clone());
        }
        i += 1;
    }
    proof {
        lemma_first_where_is(states@, hit, states@.len() as int);
    }
    Err(LinearError::WorkflowStateNotFound(String::from_str(name)))
}

/// The state that closes an issue: the first completed state named like
/// `CLOSED_NAME`.
pub fn find_closing_state(states: &Vec<WorkflowStateNode>) -> (r: Result<String, LinearError>)
    ensures
        match resolved_state(states@, CLOSED_NAME@, true) {
            Some(id) => r matches Ok(got) && got@ == id,
            None => r matches Err(e) && e@ == ErrorView::WorkflowStateNotFound(CLOSED_NAME@),
        },
{
    find_state(states, CLOSED_NAME, true)
}

/// Two spellings of one name resolve to the same state: only the lowercase
/// form of the name counts.
pub proof fn lemma_state_case_insensitive(
    states: Seq<WorkflowStateNode>,
    a: Seq<char>,
    b: Seq<char>,
    completed_only: bool,
)
    requires
        same_name(a, b),
    ensures
        resolved_state(states, a, completed_only) == resolved_state(states, b, completed_only),
{
    lemma_first_where_agree(states, state_hit(a, completed_only), state_hit(b, completed_only));
}

/// A state is chosen only for a name equal to its own without regard to
/// case; where only a completed state will do, it is one; and no state
/// before it answered the name.
pub proof fn lemma_state_exact(
    states: Seq<WorkflowStateNode>,
    name: Seq<char>,
    completed_only: bool,
)
    ensures
        resolved_state(states, name, completed_only) matches Some(id) ==> {
            let k = first_where(states, state_hit(name, completed_only));
            &&& 0 <= k < states.len()
            &&& states[k].id@ == id
            &&& lowercase(states[k].name@) == lowercase(name)
            &&& completed_only ==> states[k].state_type@ == COMPLETED@
            &&& forall|j: int|
                0 <= j < k ==> !(lowercase(#[trigger] states[j].name@) == lowercase(name) && (
                completed_only ==> states[j].state_type@ == COMPLETED@))
        },
        resolved_state(states, name, completed_only) is None ==> forall|j: int|
            0 <= j < states.len() ==> !(lowercase(#[trigger] states[j].name@) == lowercase(name)
                && (completed_only ==> states[j].state_type@ == COMPLETED@)),
{
    let hit = state_hit(name, completed_only);
    lemma_first_where(states, hit);
    let k = first_where(states, hit);
    assert forall|j: int| 0 <= j < k implies !(lowercase(#[trigger] states[j].name@) == lowercase(
        name,
    ) && (completed_only ==> states[j].state_type@ == COMPLETED@)) by {
        assert(!hit(states[j]));
    }
}

/* Labels */

/// Whether a label answers a name: the names are equal without regard to case.
pub open spec fn label_hit(name: Seq<char>) -> spec_fn(Label) -> bool {
    |l: Label| same_name(l.name@, name)
}

/// The identifier of the first label that answers the name.
pub open spec fn resolved_label(labels: Seq<Label>, name: Seq<char>) -> Option<Seq<char>> {
    let k = first_where(labels, label_hit(name));
    if k < labels.len() {
        Some(labels[k].id@)
    } else {
        None
    }
}

/// Resolves a label name: the first label whose name equals `name` without
/// regard to case wins.
pub fn find_label(labels: &Vec<Label>, name: &str) -> (r: Result<String, LinearError>)
    ensures
        match resolved_label(labels@, name@) {
            Some(id) => r matches Ok(got) && got@ == id,
            None => r matches Err(e) && e@ == ErrorView::LabelNotFound(name@),
        },
{
    let wanted = name.to_lowercase();
    let ghost hit = label_hit(name@);
    let mut i: usize = 0;
    while i < labels.len()
        invariant
            i <= labels.len(),
            wanted@ == lowercase(name@),
            hit == label_hit(name@),
            forall|j: int| 0 <= j < i ==> !hit(#[trigger] labels@[j]),
        decreases labels.len() - i,
    {
        let lower = labels[i].name.as_str().to_lowercase();
        if lower == wanted {
            proof {
                lemma_first_where_is(labels@, hit, i as int);
            }
            return Ok(labels[i].id.clone());
        }
        i += 1;
    }
    proof {
        lemma_first_where_is(labels@, hit, labels@.len() as int);
    }
    Err(LinearError::LabelNotFound(String::from_str(name)))
}

/// Resolves a list of label names as a whole: the identifiers in the order
/// of the names where every name resolves, else the failure of the first
/// name that does not, and no identifier at all.
pub fn resolve_labels(labels: &Vec<Label>, names: &Vec<String>) -> (r: Result<
    Vec<String>,
    LinearError,
>)
    ensures
        match r {
            Ok(ids) => {
                &&& ids@.len() == names@.len()
                &&& forall|i: int|
                    0 <= i < names@.len() ==> resolved_label(labels@, #[trigger] names@[i]@)
                        == Some(ids@[i]@)
            },
            Err(e) => exists|k: int|
                {
                    &&& 0 <= k < names@.len()
                    &&& resolved_label(labels@, #[trigger] names@[k]@) is None
                    &&& e@ == ErrorView::LabelNotFound(names@[k]@)
                    &&& forall|i: int|
                        0 <= i < k ==> resolved_label(labels@, #[trigger] names@[i]@) is Some
                },
        },
{
    let mut ids: Vec<String> = Vec::new();
    let mut i: usize = 0;
    while i < names.len()
        invariant
            i <= names.len(),
            ids@.len() == i,
            forall|j: int|
                0 <= j < i ==> resolved_label(labels@, #[trigger] names@[j]@) == Some(ids@[j]@),
        decreases names.len() - i,
    {
        match find_label(labels, names[i].as_str()) {
            Ok(id) => {
                ids.push(id);
            },
            Err(e) => {
                assert(resolved_label(labels@, names@[i as int]@) is None);
                return Err(e);
            },
        }
        i += 1;
    }
    Ok(ids)
}

/// Two spellings of one name resolve to the same label.
pub proof fn lemma_label_case_insensitive(labels: Seq<Label>, a: Seq<char>, b: Seq<char>)
    requires
        same_name(a, b),
    ensures
        resolved_label(labels, a) == resolved_label(labels, b),
{
    lemma_first_where_agree(labels, label_hit(a), label_hit(b));
}

/// A label is chosen only for a name equal to its own without regard to
/// case, and no label before it answered the name.
pub proof fn lemma_label_exact(labels: Seq<Label>, name: Seq<char>)
    ensures
        resolved_label(labels, name) matches Some(id) ==> {
            let k = first_where(labels, label_hit(name));
            &&& 0 <= k < labels.len()
            &&& labels[k].id@ == id
            &&& lowercase(labels[k].name@) == lowercase(name)
            &&& forall|j: int|
                0 <= j < k ==> lowercase(#[trigger] labels[j].name@) != lowercase(name)
        },
        resolved_label(labels, name) is None ==> forall|j: int|
            0 <= j < labels.len() ==> lowercase(#[trigger] labels[j].name@) != lowercase(name),
{
    let hit = label_hit(name);
    lemma_first_where(labels, hit);
    let k = first_where(labels, hit);
    assert forall|j: int| 0 <= j < k implies lowercase(#[trigger] labels[j].name@) != lowercase(
        name,
    ) by {
        assert(!hit(labels[j]));
    }
}

/* Issues */

/// Whether a text looks like an identifier of the service already: more than
/// 30 bytes long and without a hyphen.
pub open spec fn is_opaque_id(identifier: Seq<char>) -> bool {
    encode_utf8(identifier).len() > 30 && !identifier.contains('-')
}

/// Whether a text looks like an identifier of the service already.
pub fn looks_like_id(identifier: &str) -> (r: bool)
    ensures
        r == is_opaque_id(identifier@),
{
    identifier.as_bytes().len() > 30 && !contains_char(identifier, '-')
}

/// What has to be done to learn an issue's identifier.
pub enum IssueLookup {
    /// The text is the identifier.
    Known { id: String },
    /// The service has to be asked for the issue with this human-facing identifier.
    Query { identifier: String },
}

/// Decides whether an issue has to be looked up.
pub fn plan_issue_lookup(identifier: &str) -> (r: IssueLookup)
    ensures
        is_opaque_id(identifier@) ==> (r matches IssueLookup::Known { id } && id@ == identifier@),
        !is_opaque_id(identifier@) ==> (r matches IssueLookup::Query { identifier: asked }
            && asked@ == identifier@),
{
    if looks_like_id(identifier) {
        IssueLookup::Known { id: String::from_str(identifier) }
    } else {
        IssueLookup::Query { identifier: String::from_str(identifier) }
    }
}

/// What the service's answer to an issue lookup means: the identifier it
/// gave, or that there is no such issue.
pub fn finish_issue_lookup(found: Option<String>, identifier: &str) -> (r: Result<
    String,
    LinearError,
>)
    ensures
        match found {
            Some(id) => r matches Ok(got) && got@ == id@,
            None => r matches Err(e) && e@ == ErrorView::IssueNotFound(identifier@),
        },
{
    match found {
        Some(id) => Ok(id),
        None => Err(LinearError::IssueNotFound(String::from_str(identifier))),
    }
}

/* The authenticated user */

/// Whether an assignee stands for the authenticated user, whose identifier
/// only the service can tell.
pub fn wants_viewer(assignee: &str) -> (r: bool)
    ensures
        r == (assignee@ == ME@),
{
    same_text(assignee, ME)
}

/* Teams */

/// What has to be done to learn a team's identifier.
pub enum TeamLookup {
    /// The cache holds the identifier and is fresh.
    Known { id: String },
    /// The service has to be asked for the team with this key.
    Query { key: String },
}

/// Whether a team has exactly this key.
pub open spec fn team_hit(key: Seq<char>) -> spec_fn(Team) -> bool {
    |t: Team| t.key@ == key
}

/// The first of the teams that has exactly this key.
pub open spec fn queried_team(nodes: Seq<Team>, key: Seq<char>) -> Option<Team> {
    let k = first_where(nodes, team_hit(key));
    if k < nodes.len() {
        Some(nodes[k])
    } else {
        None
    }
}

/// The identifier that resolution gives for a team key: the cached one
/// while the cache is fresh, else that of the team the service names.
pub open spec fn resolved_team(cache: Cache, key: Seq<char>, now: u64, nodes: Seq<Team>) -> Option<
    Seq<char>,
> {
    match cache.fresh_id(key, now) {
        Some(id) => Some(id),
        None => match queried_team(nodes, key) {
            Some(t) => Some(t.id@),
            None => None,
        },
    }
}

/// How resolution of `key` at `now` leaves the cache: as it was after a hit
/// or a failure; after a miss that the service answered, stamped `now` and
/// holding the team's identifier under the key.
pub open spec fn cache_after_resolution(
    before: Cache,
    after: Cache,
    key: Seq<char>,
    now: u64,
    nodes: Seq<Team>,
) -> bool {
    if before.fresh_id(key, now) is Some {
        after == before
    } else {
        match queried_team(nodes, key) {
            Some(t) => after.stamp() == now && after.id_of(key) == Some(t.id@),
            None => after == before,
        }
    }
}

/// Decides whether a team has to be looked up: not while the cache is fresh
/// and holds its key.
pub fn plan_team_lookup(cache: &Cache, key: &str, now: u64) -> (r: TeamLookup)
    ensures
        match cache.fresh_id(key@, now) {
            Some(id) => r matches TeamLookup::Known { id: got } && got@ == id,
            None => r matches TeamLookup::Query { key: asked } && asked@ == key@,
        },
{
    match cache.get(key, now) {
        Some(id) => TeamLookup::Known { id },
        None => TeamLookup::Query { key: String::from_str(key) },
    }
}

/// What the service's answer to a team lookup means. The first team with
/// exactly this key is the team: it is remembered in the cache, stamped
/// `now`, and its identifier returned. Without such a team the lookup fails
/// and the cache stays as it is.
pub fn finish_team_lookup(cache: &mut Cache, key: &str, nodes: &Vec<Team>, now: u64) -> (r: Result<
    String,
    LinearError,
>)
    ensures
        match queried_team(nodes@, key@) {
            Some(t) => {
                &&& r matches Ok(got) && got@ == t.id@
                &&& final(cache).stamp() == now
                &&& final(cache).id_of(key@) == Some(t.id@)
                &&& forall|k: Seq<char>| k != key@ ==> final(cache).id_of(k) == old(cache).id_of(k)
            },
            None => {
                &&& r matches Err(e) && e@ == ErrorView::TeamNotFound(key@)
                &&& *final(cache) == *old(cache)
            },
        },
        old(cache).wf() ==> final(cache).wf(),
{
    let wanted = String::from_str(key);
    let ghost hit = team_hit(key@);
    let mut i: usize = 0;
    while i < nodes.len()
        invariant
            i <= nodes.len(),
            wanted@ == key@,
            hit == team_hit(key@),
            *cache == *old(cache),
            forall|j: int| 0 <= j < i ==> !hit(#[trigger] nodes@[j]),
        decreases nodes.len() - i,
    {
        if nodes[i].key == wanted {
            proof {
                lemma_first_where_is(nodes@, hit, i as int);
            }
            let team = CachedTeam {
                id: nodes[i].id.clone(),
                key: nodes[i].key.clone(),
                name: nodes[i].name.clone(),
            };
            cache.set_team_at(team, now);
            return Ok(nodes[i].id.clone());
        }
        i += 1;
    }
    proof {
        lemma_first_where_is(nodes@, hit, nodes@.len() as int);
    }
    Err(LinearError::TeamNotFound(String::from_str(key)))
}

/// Resolves a team key, `nodes` being what the service answers when it is
/// asked for the teams with this key. While the cache is fresh and holds the
/// key, the cached identifier is the result, the answer is not looked at and
/// the cache stays as it is; else the answer decides, as in
/// `finish_team_lookup`.
pub fn resolve_team_id(cache: &mut Cache, key: &str, now: u64, nodes: &Vec<Team>) -> (r: Result<
    String,
    LinearError,
>)
    ensures
        match resolved_team(*old(cache), key@, now, nodes@) {
            Some(id) => r matches Ok(got) && got@ == id,
            None => r matches Err(e) && e@ == ErrorView::TeamNotFound(key@),
        },
        cache_after_resolution(*old(cache), *final(cache), key@, now, nodes@),
        old(cache).wf() ==> final(cache).wf(),
{
    match plan_team_lookup(cache, key, now) {
        TeamLookup::Known { id } => Ok(id),
        TeamLookup::Query { key: asked } => finish_team_lookup(cache, asked.as_str(), nodes, now),
    }
}

/// Resolution is idempotent: with the service's answer unchanged, resolving
/// a key again, on the cache as the first resolution left it, gives the same
/// identifier, or fails again.
pub proof fn lemma_resolution_idempotent(
    before: Cache,
    after: Cache,
    key: Seq<char>,
    now: u64,
    nodes: Seq<Team>,
)
    requires
        cache_after_resolution(before, after, key, now, nodes),
    ensures
        resolved_team(after, key, now, nodes) == resolved_team(before, key, now, nodes),
{
}

/// While the cache is fresh, resolution does not depend on what the service
/// would answer.
pub proof fn lemma_fresh_cache_decides(
    cache: Cache,
    key: Seq<char>,
    now: u64,
    nodes: Seq<Team>,
    others: Seq<Team>,
)
    requires
        cache.fresh_id(key, now) is Some,
    ensures
        resolved_team(cache, key, now, nodes) == resolved_team(cache, key, now, others),
        resolved_team(cache, key, now, nodes) == cache.id_of(key),
{
}

} // verus!
