use vstd::prelude::*;

verus! {

/// A team, known to its members by its key.
#[derive(Debug, Clone)]
pub struct Team {
    pub id: String,
    pub key: String,
    pub name: String,
}

} // verus!
