//! Labels that issues can carry.

use vstd::prelude::*;
use vstd::string::StringExecFns;
use crate::output::{carries, status_colored, status_paint, truncate, ESCAPE};
use crate::text::truncated;

verus! {

/// The widest description shown in a table of labels.
pub const DESCRIPTION_WIDTH: usize = 40;

/// What is shown where there is no label.
pub const NO_LABELS: &'static str = "No labels found";

/// A label that issues can carry.
#[derive(Debug, Clone)]
pub struct Label {
    pub id: String,
    pub name: String,
    pub color: String,
    pub description: Option<String>,
}

/// A row of the table of labels.
pub struct LabelRow {
    pub name: String,
    pub description: String,
    pub id: String,
}

impl LabelRow {
    /// The headers of the table's columns, in order.
    pub fn headers() -> (h: Vec<&'static str>)
        ensures
            h@.len() == 3,
            h@[0]@ == "Name"@,
            h@[1]@ == "Description"@,
            h@[2]@ == "ID"@,
    {
        let mut h: Vec<&'static str> = Vec::new();
        h.push("Name");
        h.push("Description");
        h.push("ID");
        h
    }

    /// The cells of the row, in the order of the columns.
    pub fn cells(&self) -> (c: Vec<String>)
        ensures
            c@.len() == 3,
            c@[0]@ == self.name@,
            c@[1]@ == self.description@,
            c@[2]@ == self.id@,
    {
        let mut c: Vec<String> = Vec::new();
        c.push(self.name.clone());
        c.push(self.description.clone());
        c.push(self.id.clone());
        c
    }
}

impl LabelRow {
    /// The row that shows a label: its name in its colour, its description
    /// cut to `DESCRIPTION_WIDTH`, empty where it has none, and its identifier.
    pub fn from(label: &Label) -> (row: LabelRow)
        ensures
            status_paint(label.name@, Some(label.color@)) is None ==> row.name@ == label.name@,
            !label.name@.contains(ESCAPE) ==> carries(row.name@, label.name@),
            row.description@ == truncated(
                match label.description {
                    Some(d) => d@,
                    None => Seq::empty(),
                },
                DESCRIPTION_WIDTH as nat,
            ),
            row.id@ == label.id@,
    {
        let description = match &label.description {
            Some(d) => d.clone(),
            None => String::new(),
        };
        LabelRow {
            name: status_colored(label.name.as_str(), Some(label.color.as_str())),
            description: truncate(description.as_str(), DESCRIPTION_WIDTH),
            id: label.id.clone(),
        }
    }
}

/// The line that shows a label in compact form: its name and its
/// identifier.
pub open spec fn compact_text(label: Label) -> Seq<char> {
    label.name@ + " | "@ + label.id@
}

/// The line that shows a label in compact form.
pub fn compact_line(label: &Label) -> (r: String)
    ensures
        r@ == compact_text(*label),
{
    let mut r = label.name.clone();
    r.append(" | ");
    r.append(label.id.as_str());
    r
}

} // verus!
