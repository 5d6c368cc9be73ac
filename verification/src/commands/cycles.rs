//! Cycles of a team.

use vstd::prelude::*;
use vstd::string::StringExecFns;
use crate::dates::{day_text, format_date, format_date_only, minute_text};
use crate::error::{ErrorView, LinearError};
use crate::text::{i64_text, opt_text, signed_decimal, text_or};
use crate::types::Cycle;

verus! {

/// A row of the table of cycles.
pub struct CycleRow {
    pub number: String,
    pub name: String,
    pub starts: String,
    pub ends: String,
}

impl CycleRow {
    /// The headers of the table's columns, in order.
    pub fn headers() -> (h: Vec<&'static str>)
        ensures
            h@.len() == 4,
            h@[0]@ == "Number"@,
            h@[1]@ == "Name"@,
            h@[2]@ == "Starts"@,
            h@[3]@ == "Ends"@,
    {
        let mut h: Vec<&'static str> = Vec::new();
        h.push("Number");
        h.push("Name");
        h.push("Starts");
        h.push("Ends");
        h
    }

    /// The cells of the row, in the order of the columns.
    pub fn cells(&self) -> (c: Vec<String>)
        ensures
            c@.len() == 4,
            c@[0]@ == self.number@,
            c@[1]@ == self.name@,
            c@[2]@ == self.starts@,
            c@[3]@ == self.ends@,
    {
        let mut c: Vec<String> = Vec::new();
        c.push(self.number.clone());
        c.push(self.name.clone());
        c.push(self.starts.clone());
        c.push(self.ends.clone());
        c
    }
}

impl CycleRow {
    /// The row that shows a cycle: its number, its name, empty where it has
    /// none, and the days on which it starts and ends.
    pub fn from(cycle: &Cycle) -> (row: CycleRow)
        ensures
            row.number@ == signed_decimal(cycle.number as int),
            row.name@ == (match cycle.name {
                Some(n) => n@,
                None => Seq::empty(),
            }),
            row.starts@ == day_text(cycle.starts_at@),
            row.ends@ == day_text(cycle.ends_at@),
    {
        CycleRow {
            number: i64_text(cycle.number as i64),
            name: match &cycle.name {
                Some(n) => n.clone(),
                None => String::new(),
            },
            starts: format_date_only(cycle.starts_at.as_str()),
            ends: format_date_only(cycle.ends_at.as_str()),
        }
    }
}

/// The line that shows a cycle in compact form: its number and its name, a
/// dash where it has none.
pub open spec fn compact_text(cycle: Cycle) -> Seq<char> {
    signed_decimal(cycle.number as int) + " | "@ + (match cycle.name {
        Some(n) => n@,
        None => "-"@,
    })
}

/// The line that shows a cycle in compact form.
pub fn compact_line(cycle: &Cycle) -> (r: String)
    ensures
        r@ == compact_text(*cycle),
{
    let mut r = i64_text(cycle.number as i64);
    r.append(" | ");
    let name = text_or(&cycle.name, "-");
    r.append(name.as_str());
    r
}

/// The cycle that a lookup gave, or the failure where it gave none.
pub fn found_cycle(cycle: Option<Cycle>, id: &str) -> (r: Result<Cycle, LinearError>)
    ensures
        match cycle {
            Some(c) => r == Ok::<Cycle, LinearError>(c),
            None => r matches Err(e) && e@ == ErrorView::CycleNotFound(id@),
        },
{
    match cycle {
        Some(c) => Ok(c),
        None => Err(LinearError::CycleNotFound(String::from_str(id))),
    }
}

/// The lines that show one cycle: its number and name, and when it starts
/// and ends, by day and minute. The two local forms are those of the two
/// time stamps in the machine's time zone, where the caller has them.
pub open spec fn detail(
    cycle: Cycle,
    starts_local: Option<Seq<char>>,
    ends_local: Option<Seq<char>>,
) -> Seq<Seq<char>> {
    seq![
        "Cycle "@ + signed_decimal(cycle.number as int) + (match cycle.name {
            Some(n) => " "@ + n@,
            None => Seq::empty(),
        }),
        "Starts: "@ + minute_text(cycle.starts_at@, starts_local),
        "Ends:   "@ + minute_text(cycle.ends_at@, ends_local),
    ]
}

/// The lines that show one cycle.
pub fn detail_lines(cycle: &Cycle, starts_local: Option<String>, ends_local: Option<String>) -> (lines:
    Vec<String>)
    ensures
        lines@.len() == 3,
        forall|i: int|
            0 <= i < 3 ==> (#[trigger] lines@[i])@ == detail(
                *cycle,
                opt_text(starts_local),
                opt_text(ends_local),
            )[i],
{
    let mut heading = String::from_str("Cycle ");
    let number = i64_text(cycle.number as i64);
    heading.append(number.as_str());
    if let Some(n) = &cycle.name {
        heading.append(" ");
        heading.append(n.as_str());
    }
    let mut starts = String::from_str("Starts: ");
    let time = format_date(cycle.starts_at.as_str(), starts_local);
    starts.append(time.as_str());
    let mut ends = String::from_str("Ends:   ");
    let time = format_date(cycle.ends_at.as_str(), ends_local);
    ends.append(time.as_str());
    let mut lines: Vec<String> = Vec::new();
    lines.push(heading);
    lines.push(starts);
    lines.push(ends);
    lines
}

} // verus!
