//! Projects.

use vstd::prelude::*;
use crate::types::Project;

verus! {

/// A row of the table of projects.
pub struct ProjectRow {
    pub name: String,
    pub state: String,
    pub id: String,
}

impl ProjectRow {
    /// The headers of the table's columns, in order.
    pub fn headers() -> (h: Vec<&'static str>)
        ensures
            h@.len() == 3,
            h@[0]@ == "Name"@,
            h@[1]@ == "State"@,
            h@[2]@ == "ID"@,
    {
        let mut h: Vec<&'static str> = Vec::new();
        h.push("Name");
        h.push("State");
        h.push("ID");
        h
    }

    /// The cells of the row, in the order of the columns.
    pub fn cells(&self) -> (c: Vec<String>)
        ensures
            c@.len() == 3,
            c@[0]@ == self.name@,
            c@[1]@ == self.state@,
            c@[2]@ == self.id@,
    {
        let mut c: Vec<String> = Vec::new();
        c.push(self.name.clone());
        c.push(self.state.clone());
        c.push(self.id.clone());
        c
    }
}

impl ProjectRow {
    /// The row that shows a project: its name, its state, empty where it
    /// has none, and its identifier.
    pub fn from(project: &Project) -> (row: ProjectRow)
        ensures
            row.name@ == project.name@,
            row.state@ == (match project.state {
                Some(s) => s@,
                None => Seq::empty(),
            }),
            row.id@ == project.id@,
    {
        ProjectRow {
            name: project.name.clone(),
            state: match &project.state {
                Some(s) => s.clone(),
                None => String::new(),
            },
            id: project.id.clone(),
        }
    }
}

} // verus!
