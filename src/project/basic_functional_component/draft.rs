use super::FunctionalClassification;
use vstd::prelude::*;

verus! {

/// A component that has a name and a kind, but no counts yet.
#[derive(Clone)]
pub struct DraftBasicFunctionalComponent {
    pub name: String,
    pub fc: FunctionalClassification,
}

impl DraftBasicFunctionalComponent {
    pub fn new(name: String, fc: FunctionalClassification) -> (r: Self)
        ensures
            r.name@ == name@,
            r.fc == fc,
    {
        Self { name, fc }
    }
}

} // verus!
