use vstd::prelude::*;

verus! {

/// A user of the service.
#[derive(Debug, Clone)]
pub struct User {
    pub id: String,
    pub name: String,
    pub email: Option<String>,
}

} // verus!
