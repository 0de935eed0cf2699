use vstd::prelude::*;

verus! {

/// The selector a game puts on an entity so the harness can find it.
#[derive(Clone, Debug, PartialEq, Eq)]
pub struct E2eId {
    pub value: String,
}

impl E2eId {
    pub fn new(value: &str) -> (r: Self)
        ensures
            r.value@ == value@,
    {
        E2eId { value: value.to_owned() }
    }
}

} // verus!
