//! Relations between issues: listing them from the side of one issue,
//! creating and removing them, and the parent of an issue.

use vstd::prelude::*;
use vstd::string::StringExecFns;
use crate::error::{ErrorView, LinearError};
use crate::find::{first_where, lemma_first_where_is};
use crate::output::truncate;
use crate::text::{opt_text, truncated};
use crate::types::relation::lemma_inverse_differs;
use crate::types::{IssueRelation, IssueRelationType, RelatedIssueRef};

verus! {

/// The widest title shown in a table of relations.
pub const TITLE_WIDTH: usize = 50;

/// An issue with what it is related to.
pub struct IssueWithRelations {
    pub identifier: String,
    pub relations: Vec<IssueRelation>,
    pub parent: Option<RelatedIssueRef>,
    pub children: Vec<RelatedIssueRef>,
}

/// A row of the table of relations: how the other issue is related, its
/// identifier and its title.
#[derive(Clone)]
pub struct RelationRow {
    pub relation_type: String,
    pub issue: String,
    pub title: String,
}

impl RelationRow {
    /// The headers of the table's columns, in order.
    pub fn headers() -> (h: Vec<&'static str>)
        ensures
            h@.len() == 3,
            h@[0]@ == "Type"@,
            h@[1]@ == "Issue"@,
            h@[2]@ == "Title"@,
    {
        let mut h: Vec<&'static str> = Vec::new();
        h.push("Type");
        h.push("Issue");
        h.push("Title");
        h
    }

    /// The cells of the row, in the order of the columns.
    pub fn cells(&self) -> (c: Vec<String>)
        ensures
            c@.len() == 3,
            c@[0]@ == self.relation_type@,
            c@[1]@ == self.issue@,
            c@[2]@ == self.title@,
    {
        let mut c: Vec<String> = Vec::new();
        c.push(self.relation_type.clone());
        c.push(self.issue.clone());
        c.push(self.title.clone());
        c
    }
}

/// What is sent to relate two issues.
pub struct RelationInput {
    pub issue_id: String,
    pub related_issue_id: String,
    pub relation: String,
}

/// A row as plain values.
pub open spec fn row_view(row: RelationRow) -> (Seq<char>, Seq<char>, Seq<char>) {
    (row.relation_type@, row.issue@, row.title@)
}

/// The rows as plain values.
pub open spec fn rows_view(rows: Seq<RelationRow>) -> Seq<(Seq<char>, Seq<char>, Seq<char>)> {
    Seq::new(rows.len(), |i: int| row_view(rows[i]))
}

/// The row for an issue related in a way named `kind`.
pub open spec fn ref_row(kind: Seq<char>, other: RelatedIssueRef) -> (
    Seq<char>,
    Seq<char>,
    Seq<char>,
) {
    (kind, other.identifier@, truncated(other.title@, TITLE_WIDTH as nat))
}

/// The row that shows a relation from the side of the issue `identifier`.
/// Where that issue is the relation's source, the relation's own name and
/// its target; else the inverse name and its source.
pub open spec fn relation_row(identifier: Seq<char>, rel: IssueRelation) -> (
    Seq<char>,
    Seq<char>,
    Seq<char>,
) {
    if rel.issue.identifier@ == identifier {
        ref_row(rel.relation_type.forward(), rel.related_issue)
    } else {
        ref_row(rel.relation_type.inverse(), rel.issue)
    }
}

/// The rows that show what an issue is related to: its parent, its
/// children, then its relations, each group in the service's order.
pub open spec fn relation_rows(issue: IssueWithRelations) -> Seq<
    (Seq<char>, Seq<char>, Seq<char>),
> {
    (match issue.parent {
        Some(p) => seq![ref_row("parent"@, p)],
        None => Seq::empty(),
    }) + Seq::new(issue.children@.len(), |i: int| ref_row("child"@, issue.children@[i]))
        + Seq::new(
        issue.relations@.len(),
        |i: int| relation_row(issue.identifier@, issue.relations@[i]),
    )
}

fn row_for(kind: &str, other: &RelatedIssueRef) -> (row: RelationRow)
    ensures
        row_view(row) == ref_row(kind@, *other),
{
    RelationRow {
        relation_type: String::from_str(kind),
        issue: other.identifier.clone(),
        title: truncate(other.title.as_str(), TITLE_WIDTH),
    }
}

/// The row that shows a relation from the side of the issue `identifier`.
pub fn row_of_relation(identifier: &str, rel: &IssueRelation) -> (row: RelationRow)
    ensures
        row_view(row) == relation_row(identifier@, *rel),
{
    let own = String::from_str(identifier);
    if rel.issue.identifier == own {
        row_for(rel.relation_type.label(), &rel.related_issue)
    } else {
        row_for(rel.relation_type.inverse_label(), &rel.issue)
    }
}

/// The rows that show what an issue is related to.
pub fn rows_of(issue: &IssueWithRelations) -> (rows: Vec<RelationRow>)
    ensures
        rows_view(rows@) == relation_rows(*issue),
{
    let mut rows: Vec<RelationRow> = Vec::new();
    if let Some(p) = &issue.parent {
        rows.push(row_for("parent", p));
    }
    let ghost head = rows_view(rows@);
    assert(head =~= (match issue.parent {
        Some(p) => seq![ref_row("parent"@, p)],
        None => Seq::empty(),
    }));
    let mut i: usize = 0;
    while i < issue.children.len()
        invariant
            i <= issue.children@.len(),
            rows_view(rows@) == head + Seq::new(
                i as nat,
                |k: int| ref_row("child"@, issue.children@[k]),
            ),
        decreases issue.children@.len() - i,
    {
        let ghost before = rows_view(rows@);
        rows.push(row_for("child", &issue.children[i]));
        assert(rows_view(rows@) =~= before.push(ref_row("child"@, issue.children@[i as int])));
        assert(head + Seq::new((i + 1) as nat, |k: int| ref_row("child"@, issue.children@[k]))
            =~= (head + Seq::new(i as nat, |k: int| ref_row("child"@, issue.children@[k]))).push(
            ref_row("child"@, issue.children@[i as int]),
        ));
        i += 1;
    }
    let ghost middle = rows_view(rows@);
    let mut j: usize = 0;
    while j < issue.relations.len()
        invariant
            j <= issue.relations@.len(),
            rows_view(rows@) == middle + Seq::new(
                j as nat,
                |k: int| relation_row(issue.identifier@, issue.relations@[k]),
            ),
        decreases issue.relations@.len() - j,
    {
        let ghost before = rows_view(rows@);
        rows.push(row_of_relation(issue.identifier.as_str(), &issue.relations[j]));
        assert(rows_view(rows@) =~= before.push(
            relation_row(issue.identifier@, issue.relations@[j as int]),
        ));
        assert(middle + Seq::new(
            (j + 1) as nat,
            |k: int| relation_row(issue.identifier@, issue.relations@[k]),
        ) =~= (middle + Seq::new(
            j as nat,
            |k: int| relation_row(issue.identifier@, issue.relations@[k]),
        )).push(relation_row(issue.identifier@, issue.relations@[j as int])));
        j += 1;
    }
    rows
}

/// A relation of which the listed issue is not the source is shown under
/// its inverse name, never under its own.
pub proof fn lemma_target_sees_inverse(identifier: Seq<char>, rel: IssueRelation)
    requires
        rel.issue.identifier@ != identifier,
    ensures
        relation_row(identifier, rel).0 == rel.relation_type.inverse(),
        relation_row(identifier, rel).0 != rel.relation_type.forward(),
        relation_row(identifier, rel).1 == rel.issue.identifier@,
{
    lemma_inverse_differs(rel.relation_type);
}

/// In the rows of an issue, every relation of which the issue is not the
/// source stands under its inverse name.
pub proof fn lemma_rows_normalize_direction(issue: IssueWithRelations, i: int)
    requires
        0 <= i < issue.relations@.len(),
        issue.relations@[i].issue.identifier@ != issue.identifier@,
    ensures
        ({
            let offset = (if issue.parent is Some {
                1int
            } else {
                0int
            }) + issue.children@.len();
            &&& offset + i < relation_rows(issue).len()
            &&& relation_rows(issue)[offset + i].0 == issue.relations@[i].relation_type.inverse()
            &&& relation_rows(issue)[offset + i].0 != issue.relations@[i].relation_type.forward()
        }),
{
    lemma_target_sees_inverse(issue.identifier@, issue.relations@[i]);
}

/// The line that shows a row in compact form.
pub open spec fn compact_text(row: RelationRow) -> Seq<char> {
    row.relation_type@ + ": "@ + row.issue@ + " - "@ + row.title@
}

/// The line that shows a row in compact form.
pub fn compact_line(row: &RelationRow) -> (r: String)
    ensures
        r@ == compact_text(*row),
{
    let mut r = row.relation_type.clone();
    r.append(": ");
    r.append(row.issue.as_str());
    r.append(" - ");
    r.append(row.title.as_str());
    r
}

/// The message for an issue without relations.
pub fn no_relations_message(identifier: &str) -> (r: String)
    ensures
        r@ == "No relations for "@ + identifier@,
{
    let mut r = String::from_str("No relations for ");
    r.append(identifier);
    r
}

/// The issue with its relations that a lookup gave, or the failure where
/// it gave none.
pub fn found_relations(issue: Option<IssueWithRelations>, id: &str) -> (r: Result<
    IssueWithRelations,
    LinearError,
>)
    ensures
        match issue {
            Some(i) => r == Ok::<IssueWithRelations, LinearError>(i),
            None => r matches Err(e) && e@ == ErrorView::IssueNotFound(id@),
        },
{
    match issue {
        Some(i) => Ok(i),
        None => Err(LinearError::IssueNotFound(String::from_str(id))),
    }
}

/* Creating and removing */

/// What is sent to relate `source` to `target`, given their identifiers at
/// the service.
pub fn relation_input(source_id: String, target_id: String, relation: IssueRelationType) -> (r:
    RelationInput)
    ensures
        r.issue_id@ == source_id@,
        r.related_issue_id@ == target_id@,
        r.relation@ == relation.forward(),
{
    RelationInput { issue_id: source_id, related_issue_id: target_id, relation: relation.to_string() }
}

/// The message for a created relation; none where the service did not
/// report success.
pub fn related_message(success: bool, source: &str, relation: IssueRelationType, target: &str) -> (r:
    Option<String>)
    ensures
        success ==> opt_text(r) == Some(source@ + " "@ + relation.forward() + " "@ + target@),
        !success ==> r is None,
{
    if success {
        let mut m = String::from_str(source);
        m.append(" ");
        m.append(relation.label());
        m.append(" ");
        m.append(target);
        Some(m)
    } else {
        None
    }
}

/// Whether a relation links to the issue `target`, at either end.
pub open spec fn links_to(target: Seq<char>) -> spec_fn(IssueRelation) -> bool {
    |r: IssueRelation| r.related_issue.identifier@ == target || r.issue.identifier@ == target
}

/// The identifier of the first relation that links to `target`.
pub open spec fn relation_between(relations: Seq<IssueRelation>, target: Seq<char>) -> Option<
    Seq<char>,
> {
    let k = first_where(relations, links_to(target));
    if k < relations.len() {
        Some(relations[k].id@)
    } else {
        None
    }
}

/// Finds the relation to remove: the first of the relations of `source`
/// that has `target` at either end.
pub fn find_relation(relations: &Vec<IssueRelation>, source: &str, target: &str) -> (r: Result<
    String,
    LinearError,
>)
    ensures
        match relation_between(relations@, target@) {
            Some(id) => r matches Ok(got) && got@ == id,
            None => r matches Err(e) && e@ == ErrorView::RelationNotFound(source@, target@),
        },
{
    let wanted = String::from_str(target);
    let ghost hit = links_to(target@);
    let mut i: usize = 0;
    while i < relations.len()
        invariant
            i <= relations@.len(),
            wanted@ == target@,
            hit == links_to(target@),
            forall|j: int| 0 <= j < i ==> !hit(#[trigger] relations@[j]),
        decreases relations@.len() - i,
    {
        if relations[i].related_issue.identifier == wanted || relations[i].issue.identifier
            == wanted {
            proof {
                lemma_first_where_is(relations@, hit, i as int);
            }
            return Ok(relations[i].id.clone());
        }
        i += 1;
    }
    proof {
        lemma_first_where_is(relations@, hit, relations@.len() as int);
    }
    Err(LinearError::RelationNotFound(String::from_str(source), String::from_str(target)))
}

/// The message for a removed relation; none where the service did not
/// report success.
pub fn unrelated_message(success: bool, source: &str, target: &str) -> (r: Option<String>)
    ensures
        success ==> opt_text(r) == Some(
            "Removed relation between "@ + source@ + " and "@ + target@,
        ),
        !success ==> r is None,
{
    if success {
        let mut m = String::from_str("Removed relation between ");
        m.append(source);
        m.append(" and ");
        m.append(target);
        Some(m)
    } else {
        None
    }
}

/// The message for a parent that was set; none where the service did not
/// report success.
pub fn parent_set_message(success: bool, id: &str, parent_id: &str) -> (r: Option<String>)
    ensures
        success ==> opt_text(r) == Some("Set "@ + parent_id@ + " as parent of "@ + id@),
        !success ==> r is None,
{
    if success {
        let mut m = String::from_str("Set ");
        m.append(parent_id);
        m.append(" as parent of ");
        m.append(id);
        Some(m)
    } else {
        None
    }
}

/// The message for a parent that was removed; none where the service did
/// not report success.
pub fn parent_removed_message(success: bool, id: &str) -> (r: Option<String>)
    ensures
        success ==> opt_text(r) == Some("Removed parent from "@ + id@),
        !success ==> r is None,
{
    if success {
        let mut m = String::from_str("Removed parent from ");
        m.append(id);
        Some(m)
    } else {
        None
    }
}

} // verus!
