//! Listing, showing, creating, updating and closing issues: what is asked of
//! the service and what is shown of its answers.

use vstd::prelude::*;
use vstd::string::StringExecFns;
use crate::cli::{IssueCreateArgs, IssueListArgs, IssueUpdateArgs};
use crate::config::Config;
use crate::error::{ErrorView, LinearError};
use crate::output::truncate;
use crate::pagination::{capped, first_request, PageRequest, PAGE_SIZE};
use crate::resolve::{find_closing_state, find_state, resolved_state, wants_viewer, CLOSED_NAME, ME};
use crate::responses::{CreatedIssue, WorkflowStateNode};
use crate::text::{i64_text, opt_copy, opt_text, signed_decimal, truncated};
use crate::types::{Issue, Priority};

verus! {

/// The widest title shown in a table.
pub const TITLE_WIDTH: usize = 50;

/// A row of the issue table.
pub struct IssueRow {
    pub id: String,
    pub title: String,
    pub status: String,
    pub priority: String,
    pub assignee: String,
}

/// The conditions that listed issues meet. Team, assignee and label are
/// matched exactly; status, project and cycle by a part of their name,
/// without regard to case.
pub struct IssueFilter {
    pub team_key: Option<String>,
    pub status: Option<String>,
    pub project: Option<String>,
    pub cycle: Option<String>,
    pub assignee_id: Option<String>,
    pub label_id: Option<String>,
}

/// What a listing asks of the service.
pub struct ListRequest {
    pub filter: IssueFilter,
    pub page: PageRequest,
}

/// What is sent to create an issue.
pub struct CreateInput {
    pub title: String,
    pub team_id: String,
    pub description: Option<String>,
    pub priority: Option<i32>,
}

/// What is sent to update an issue: the fields to change.
pub struct UpdateInput {
    pub title: Option<String>,
    pub description: Option<String>,
    pub priority: Option<i32>,
    pub state_id: Option<String>,
    pub assignee_id: Option<String>,
}

/// What an update has to ask the service before it can be sent.
pub struct UpdatePlan {
    /// The status name to resolve among the workflow states of the issue's team.
    pub status: Option<String>,
    /// Whether the authenticated user's identifier is needed.
    pub viewer: bool,
}

/// The text of a priority number: the level's name for 0 to 4, else `P`
/// and the number.
pub open spec fn priority_text(priority: int) -> Seq<char> {
    if 0 <= priority <= 4 {
        Priority::of_number(priority).name()
    } else {
        "P"@ + signed_decimal(priority)
    }
}

/// The number of an optional priority level.
pub open spec fn opt_number(p: Option<Priority>) -> Option<int> {
    match p {
        Some(level) => Some(level.number()),
        None => None,
    }
}

/// An optional `i32` as an optional integer.
pub open spec fn opt_int(p: Option<i32>) -> Option<int> {
    match p {
        Some(n) => Some(n as int),
        None => None,
    }
}

/// The text of a priority number.
pub fn priority_label(priority: i32) -> (r: String)
    ensures
        r@ == priority_text(priority as int),
{
    if 0 <= priority && priority <= 4 {
        Priority::from_i32(priority).to_string()
    } else {
        let mut r = String::from_str("P");
        let n = i64_text(priority as i64);
        r.append(n.as_str());
        r
    }
}

/// Whether a row shows an issue: its identifier, its title cut to
/// `TITLE_WIDTH`, and the names of its state, priority and assignee, empty
/// where it has none.
pub open spec fn shows(row: IssueRow, issue: Issue) -> bool {
    &&& row.id@ == issue.identifier@
    &&& row.title@ == truncated(issue.title@, TITLE_WIDTH as nat)
    &&& row.status@ == (match issue.state {
        Some(s) => s.name@,
        None => Seq::empty(),
    })
    &&& row.priority@ == priority_text(issue.priority as int)
    &&& row.assignee@ == (match issue.assignee {
        Some(u) => u.name@,
        None => Seq::empty(),
    })
}

impl IssueRow {
    /// The headers of the table's columns, in order.
    pub fn headers() -> (h: Vec<&'static str>)
        ensures
            h@.len() == 5,
            h@[0]@ == "ID"@,
            h@[1]@ == "Title"@,
            h@[2]@ == "Status"@,
            h@[3]@ == "Priority"@,
            h@[4]@ == "Assignee"@,
    {
        let mut h: Vec<&'static str> = Vec::new();
        h.push("ID");
        h.push("Title");
        h.push("Status");
        h.push("Priority");
        h.push("Assignee");
        h
    }

    /// The cells of the row, in the order of the columns.
    pub fn cells(&self) -> (c: Vec<String>)
        ensures
            c@.len() == 5,
            c@[0]@ == self.id@,
            c@[1]@ == self.title@,
            c@[2]@ == self.status@,
            c@[3]@ == self.priority@,
            c@[4]@ == self.assignee@,
    {
        let mut c: Vec<String> = Vec::new();
        c.push(self.id.clone());
        c.push(self.title.clone());
        c.push(self.status.clone());
        c.push(self.priority.clone());
        c.push(self.assignee.clone());
        c
    }
}

impl IssueRow {
    /// The row that shows an issue.
    pub fn from(issue: &Issue) -> (row: IssueRow)
        ensures
            shows(row, *issue),
    {
        IssueRow {
            id: issue.identifier.clone(),
            title: truncate(issue.title.as_str(), TITLE_WIDTH),
            status: match &issue.state {
                Some(s) => s.name.clone(),
                None => String::new(),
            },
            priority: priority_label(issue.priority),
            assignee: match &issue.assignee {
                Some(u) => u.name.clone(),
                None => String::new(),
            },
        }
    }
}

/// The rows of a list of issues, one for each, in order.
pub fn issue_rows(issues: &Vec<Issue>) -> (rows: Vec<IssueRow>)
    ensures
        rows@.len() == issues@.len(),
        forall|i: int| 0 <= i < issues@.len() ==> shows(#[trigger] rows@[i], issues@[i]),
{
    let mut rows: Vec<IssueRow> = Vec::new();
    let mut i: usize = 0;
    while i < issues.len()
        invariant
            i <= issues.len(),
            rows@.len() == i,
            forall|j: int| 0 <= j < i ==> shows(#[trigger] rows@[j], issues@[j]),
        decreases issues.len() - i,
    {
        rows.push(IssueRow::from(&issues[i]));
        i += 1;
    }
    rows
}

/* Listing */

/// Whether a listing needs the authenticated user's identifier first.
pub fn list_needs_viewer(args: &IssueListArgs) -> (r: bool)
    ensures
        r == args.mine,
{
    args.mine
}

/// Whether a listing needs the labels first, to resolve the one it names.
pub fn list_needs_labels(args: &IssueListArgs) -> (r: bool)
    ensures
        r == args.label is Some,
{
    args.label.is_some()
}

/// What a listing asks of the service: the team given or configured, the
/// status, project and cycle given, the viewer as assignee where only the
/// user's own issues are wanted, the label's identifier where a label is
/// named, and the first page.
pub fn list_request(
    config: &Config,
    args: &IssueListArgs,
    viewer_id: Option<String>,
    label_id: Option<String>,
) -> (r: ListRequest)
    ensures
        opt_text(r.filter.team_key) == config.team_choice(opt_text(args.team)),
        opt_text(r.filter.status) == opt_text(args.status),
        opt_text(r.filter.project) == opt_text(args.project),
        opt_text(r.filter.cycle) == opt_text(args.cycle),
        opt_text(r.filter.assignee_id) == (if args.mine {
            opt_text(viewer_id)
        } else {
            None
        }),
        opt_text(r.filter.label_id) == (if args.label is Some {
            opt_text(label_id)
        } else {
            None
        }),
        r.page.after is None,
        r.page.first == (if args.all {
            PAGE_SIZE
        } else {
            capped(args.limit)
        }),
{
    let team_key = match &args.team {
        Some(t) => config.resolve_team(Some(t.as_str())),
        None => config.resolve_team(None),
    };
    ListRequest {
        filter: IssueFilter {
            team_key,
            status: opt_copy(&args.status),
            project: opt_copy(&args.project),
            cycle: opt_copy(&args.cycle),
            assignee_id: if args.mine {
                viewer_id
            } else {
                None
            },
            label_id: if args.label.is_some() {
                label_id
            } else {
                None
            },
        },
        page: first_request(args.limit, args.all),
    }
}

/* Showing */

/// The issue that a lookup gave, or the failure where it gave none.
pub fn found_issue(issue: Option<Issue>, id: &str) -> (r: Result<Issue, LinearError>)
    ensures
        match issue {
            Some(i) => r == Ok::<Issue, LinearError>(i),
            None => r matches Err(e) && e@ == ErrorView::IssueNotFound(id@),
        },
{
    match issue {
        Some(i) => Ok(i),
        None => Err(LinearError::IssueNotFound(String::from_str(id))),
    }
}

/// The name shown for a cycle: its own, or `Cycle` and its number.
pub open spec fn cycle_text(name: Option<String>, number: i32) -> Seq<char> {
    match name {
        Some(n) => n@,
        None => "Cycle "@ + signed_decimal(number as int),
    }
}

/// The lines that show one issue.
pub open spec fn detail(issue: Issue) -> Seq<Seq<char>> {
    seq![issue.identifier@ + " - "@ + issue.title@, Seq::empty()] + (match issue.description {
        Some(d) => seq![d@, Seq::empty()],
        None => Seq::empty(),
    }) + seq![
        "Team:     "@ + issue.team.name@,
        "Status:   "@ + (match issue.state {
            Some(s) => s.name@,
            None => "-"@,
        }),
        "Priority: "@ + priority_text(issue.priority as int),
        "Assignee: "@ + (match issue.assignee {
            Some(u) => u.name@,
            None => "-"@,
        }),
    ] + (match issue.project {
        Some(p) => seq!["Project:  "@ + p.name@],
        None => Seq::empty(),
    }) + (match issue.cycle {
        Some(c) => seq!["Cycle:    "@ + cycle_text(c.name, c.number)],
        None => Seq::empty(),
    })
}

/// The lines of a list of strings.
pub open spec fn lines_of(v: Seq<String>) -> Seq<Seq<char>> {
    Seq::new(v.len(), |i: int| v[i]@)
}

fn labelled(label: &str, value: &str) -> (r: String)
    ensures
        r@ == label@ + value@,
{
    let mut r = String::from_str(label);
    r.append(value);
    r
}

/// The lines that show one issue: heading, description where there is one,
/// then team, status, priority and assignee, then project and cycle where
/// the issue has them.
pub fn detail_lines(issue: &Issue) -> (lines: Vec<String>)
    ensures
        lines_of(lines@) == detail(*issue),
{
    let mut lines: Vec<String> = Vec::new();
    let mut heading = issue.identifier.clone();
    heading.append(" - ");
    heading.append(issue.title.as_str());
    lines.push(heading);
    lines.push(String::new());
    if let Some(d) = &issue.description {
        lines.push(d.clone());
        lines.push(String::new());
    }
    lines.push(labelled("Team:     ", issue.team.name.as_str()));
    let status = match &issue.state {
        Some(s) => s.name.clone(),
        None => String::from_str("-"),
    };
    lines.push(labelled("Status:   ", status.as_str()));
    let priority = priority_label(issue.priority);
    lines.push(labelled("Priority: ", priority.as_str()));
    let assignee = match &issue.assignee {
        Some(u) => u.name.clone(),
        None => String::from_str("-"),
    };
    lines.push(labelled("Assignee: ", assignee.as_str()));
    if let Some(p) = &issue.project {
        lines.push(labelled("Project:  ", p.name.as_str()));
    }
    if let Some(c) = &issue.cycle {
        let name = match &c.name {
            Some(n) => n.clone(),
            None => {
                let mut n = String::from_str("Cycle ");
                let number = i64_text(c.number as i64);
                n.append(number.as_str());
                n
            },
        };
        lines.push(labelled("Cycle:    ", name.as_str()));
    }
    assert(lines_of(lines@) =~= detail(*issue));
    lines
}

/* Creating */

/// What is sent to create an issue in the team with this identifier.
pub fn create_input(args: &IssueCreateArgs, team_id: String) -> (r: CreateInput)
    ensures
        r.title@ == args.title@,
        r.team_id@ == team_id@,
        opt_text(r.description) == opt_text(args.description),
        opt_int(r.priority) == opt_number(args.priority),
{
    CreateInput {
        title: args.title.clone(),
        team_id,
        description: opt_copy(&args.description),
        priority: match args.priority {
            Some(p) => Some(p.as_i32()),
            None => None,
        },
    }
}

/// The line that reports a change to an issue: `verb`, the issue's
/// identifier and its title. There is none where the service did not report
/// success or named no issue.
pub open spec fn change_text(verb: Seq<char>, success: bool, issue: Option<CreatedIssue>) -> Option<
    Seq<char>,
> {
    match issue {
        Some(i) if success => Some(verb + " "@ + i.identifier@ + " - "@ + i.title@),
        _ => None,
    }
}

fn change_message(verb: &str, success: bool, issue: &Option<CreatedIssue>) -> (r: Option<String>)
    ensures
        opt_text(r) == change_text(verb@, success, *issue),
{
    match issue {
        Some(i) => {
            if success {
                let mut m = String::from_str(verb);
                m.append(" ");
                m.append(i.identifier.as_str());
                m.append(" - ");
                m.append(i.title.as_str());
                Some(m)
            } else {
                None
            }
        },
        None => None,
    }
}

/// The line that reports a created issue.
pub fn created_message(success: bool, issue: &Option<CreatedIssue>) -> (r: Option<String>)
    ensures
        opt_text(r) == change_text("Created"@, success, *issue),
{
    change_message("Created", success, issue)
}

/// The line that reports an updated issue.
pub fn updated_message(success: bool, issue: &Option<CreatedIssue>) -> (r: Option<String>)
    ensures
        opt_text(r) == change_text("Updated"@, success, *issue),
{
    change_message("Updated", success, issue)
}

/* Updating */

impl UpdateInput {
    /// Whether no field is to be changed.
    pub open spec fn empty(&self) -> bool {
        self.title is None && self.description is None && self.priority is None
            && self.state_id is None && self.assignee_id is None
    }

    /// Whether no field is to be changed.
    pub fn is_empty(&self) -> (r: bool)
        ensures
            r == self.empty(),
    {
        self.title.is_none() && self.description.is_none() && self.priority.is_none()
            && self.state_id.is_none() && self.assignee_id.is_none()
    }
}

/// Whether the arguments name the authenticated user as assignee.
pub open spec fn assigns_viewer(args: IssueUpdateArgs) -> bool {
    args.assignee matches Some(a) && a@ == ME@
}

/// What an update has to ask the service first: the workflow states of the
/// issue's team where a status is given, the viewer where the assignee is `me`.
pub fn plan_update(args: &IssueUpdateArgs) -> (plan: UpdatePlan)
    ensures
        opt_text(plan.status) == opt_text(args.status),
        plan.viewer == assigns_viewer(*args),
{
    UpdatePlan {
        status: opt_copy(&args.status),
        viewer: match &args.assignee {
            Some(a) => wants_viewer(a.as_str()),
            None => false,
        },
    }
}

/// The state identifier that an update sets: none where no status is given;
/// a failure where the status names no state of the team.
pub open spec fn update_state(args: IssueUpdateArgs, states: Seq<WorkflowStateNode>) -> Result<
    Option<Seq<char>>,
    ErrorView,
> {
    match args.status {
        None => Ok(None),
        Some(name) => match resolved_state(states, name@, false) {
            Some(id) => Ok(Some(id)),
            None => Err(ErrorView::WorkflowStateNotFound(name@)),
        },
    }
}

/// What is sent to update an issue, given the workflow states of its team
/// and the viewer's identifier as far as the plan asked for them. The result
/// is `None` where the arguments change nothing, and a failure where the
/// status names no state.
pub fn update_input(
    args: &IssueUpdateArgs,
    states: &Vec<WorkflowStateNode>,
    viewer_id: Option<String>,
) -> (r: Result<Option<UpdateInput>, LinearError>)
    ensures
        match update_state(*args, states@) {
            Err(view) => r matches Err(e) && e@ == view,
            Ok(state_id) => {
                &&& r matches Ok(sent)
                &&& {
                    let assignee = if assigns_viewer(*args) {
                        opt_text(viewer_id)
                    } else {
                        None
                    };
                    let nothing = args.title is None && args.description is None
                        && args.priority is None && state_id is None && assignee is None;
                    match sent {
                        None => nothing,
                        Some(input) => {
                            &&& !nothing
                            &&& opt_text(input.title) == opt_text(args.title)
                            &&& opt_text(input.description) == opt_text(args.description)
                            &&& opt_int(input.priority) == opt_number(args.priority)
                            &&& opt_text(input.state_id) == state_id
                            &&& opt_text(input.assignee_id) == assignee
                        },
                    }
                }
            },
        },
{
    let state_id = match &args.status {
        Some(name) => match find_state(states, name.as_str(), false) {
            Ok(id) => Some(id),
            Err(e) => {
                return Err(e);
            },
        },
        None => None,
    };
    let plan = plan_update(args);
    let input = UpdateInput {
        title: opt_copy(&args.title),
        description: opt_copy(&args.description),
        priority: match args.priority {
            Some(p) => Some(p.as_i32()),
            None => None,
        },
        state_id,
        assignee_id: if plan.viewer {
            viewer_id
        } else {
            None
        },
    };
    if input.is_empty() {
        Ok(None)
    } else {
        Ok(Some(input))
    }
}

/// What is sent to close an issue: the first completed state of its team
/// named like `CLOSED_NAME`, and nothing else. A state whose name only
/// holds that name as a part never counts.
pub fn close_input(states: &Vec<WorkflowStateNode>) -> (r: Result<UpdateInput, LinearError>)
    ensures
        match resolved_state(states@, CLOSED_NAME@, true) {
            Some(id) => {
                &&& r matches Ok(input)
                &&& opt_text(input.state_id) == Some(id)
                &&& input.title is None
                &&& input.description is None
                &&& input.priority is None
                &&& input.assignee_id is None
            },
            None => r matches Err(e) && e@ == ErrorView::WorkflowStateNotFound(CLOSED_NAME@),
        },
{
    match find_closing_state(states) {
        Ok(id) => Ok(
            UpdateInput {
                title: None,
                description: None,
                priority: None,
                state_id: Some(id),
                assignee_id: None,
            },
        ),
        Err(e) => Err(e),
    }
}

} // verus!
