//! Teams.

use vstd::prelude::*;
use crate::types::Team;

verus! {

/// A row of the table of teams.
pub struct TeamRow {
    pub key: String,
    pub name: String,
    pub id: String,
}

impl TeamRow {
    /// The headers of the table's columns, in order.
    pub fn headers() -> (h: Vec<&'static str>)
        ensures
            h@.len() == 3,
            h@[0]@ == "Key"@,
            h@[1]@ == "Name"@,
            h@[2]@ == "ID"@,
    {
        let mut h: Vec<&'static str> = Vec::new();
        h.push("Key");
        h.push("Name");
        h.push("ID");
        h
    }

    /// The cells of the row, in the order of the columns.
    pub fn cells(&self) -> (c: Vec<String>)
        ensures
            c@.len() == 3,
            c@[0]@ == self.key@,
            c@[1]@ == self.name@,
            c@[2]@ == self.id@,
    {
        let mut c: Vec<String> = Vec::new();
        c.push(self.key.clone());
        c.push(self.name.clone());
        c.push(self.id.clone());
        c
    }
}

impl TeamRow {
    /// The row that shows a team: its key, its name and its identifier.
    pub fn from(team: &Team) -> (row: TeamRow)
        ensures
            row.key@ == team.key@,
            row.name@ == team.name@,
            row.id@ == team.id@,
    {
        TeamRow { key: team.key.clone(), name: team.name.clone(), id: team.id.clone() }
    }
}

} // verus!
