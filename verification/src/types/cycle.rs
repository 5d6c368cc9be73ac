use vstd::prelude::*;

verus! {

/// A time-boxed iteration of a team.
#[derive(Debug, Clone)]
pub struct Cycle {
    pub id: String,
    pub name: Option<String>,
    pub number: i32,
    pub starts_at: String,
    pub ends_at: String,
}

} // verus!
