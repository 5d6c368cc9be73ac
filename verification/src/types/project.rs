use vstd::prelude::*;

verus! {

/// A project that issues belong to.
#[derive(Debug, Clone)]
pub struct Project {
    pub id: String,
    pub name: String,
    pub state: Option<String>,
}

} // verus!
