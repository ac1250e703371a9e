use super::basic_functional_component::{Complexity, FunctionalClassification};
use vstd::prelude::*;

verus! {

/// The weight of each complexity level, one row per weighted kind of component. Internal
/// logical files and external interface files share the referenced logical file row.
#[derive(Clone, Copy, Debug, Default)]
pub struct WeightingFactors {
    referenced_logical_file: [u32; 3],
    external_query: [u32; 3],
    external_output: [u32; 3],
    external_input: [u32; 3],
}

impl WeightingFactors {
    pub closed spec fn spec_referenced_logical_file(self) -> Seq<u32> {
        self.referenced_logical_file@
    }

    pub closed spec fn spec_external_query(self) -> Seq<u32> {
        self.external_query@
    }

    pub closed spec fn spec_external_output(self) -> Seq<u32> {
        self.external_output@
    }

    pub closed spec fn spec_external_input(self) -> Seq<u32> {
        self.external_input@
    }

    pub proof fn lemma_rows_len(self)
        ensures
            self.spec_referenced_logical_file().len() == 3,
            self.spec_external_query().len() == 3,
            self.spec_external_output().len() == 3,
            self.spec_external_input().len() == 3,
    {
    }

    /// The row that weighs a component of kind `fc`.
    pub open spec fn row(self, fc: FunctionalClassification) -> Seq<u32> {
        match fc {
            FunctionalClassification::InternalLogicalFile
            | FunctionalClassification::ExternalInterfaceFile => self.spec_referenced_logical_file(),
            FunctionalClassification::ExternalInput => self.spec_external_input(),
            FunctionalClassification::ExternalOutput => self.spec_external_output(),
            FunctionalClassification::ExternalQuery => self.spec_external_query(),
        }
    }

    /// The weight of one component of kind `fc` and complexity `cx`.
    pub open spec fn weight(self, fc: FunctionalClassification, cx: Complexity) -> nat {
        self.row(fc)[cx.rank() as int] as nat
    }

    /// Weighting factors with every weight zero.
    pub fn new() -> (r: Self)
        ensures
            r.spec_referenced_logical_file() == seq![0u32, 0, 0],
            r.spec_external_query() == seq![0u32, 0, 0],
            r.spec_external_output() == seq![0u32, 0, 0],
            r.spec_external_input() == seq![0u32, 0, 0],
    {
        let r = WeightingFactors {
            referenced_logical_file: [0, 0, 0],
            external_query: [0, 0, 0],
            external_output: [0, 0, 0],
            external_input: [0, 0, 0],
        };
        assert(r.spec_referenced_logical_file() =~= seq![0u32, 0, 0]);
        assert(r.spec_external_query() =~= seq![0u32, 0, 0]);
        assert(r.spec_external_output() =~= seq![0u32, 0, 0]);
        assert(r.spec_external_input() =~= seq![0u32, 0, 0]);
        r
    }

    /// Get a reference to the weighting factors's referenced logical file.
    pub fn referenced_logical_file(&self) -> (r: &[u32; 3])
        ensures
            r@ == self.spec_referenced_logical_file(),
    {
        &self.referenced_logical_file
    }

    /// Get a reference to the weighting factors's external query.
    pub fn external_query(&self) -> (r: &[u32; 3])
        ensures
            r@ == self.spec_external_query(),
    {
        &self.external_query
    }

    /// Get a reference to the weighting factors's external output.
    pub fn external_output(&self) -> (r: &[u32; 3])
        ensures
            r@ == self.spec_external_output(),
    {
        &self.external_output
    }

    /// Get a reference to the weighting factors's external input.
    pub fn external_input(&self) -> (r: &[u32; 3])
        ensures
            r@ == self.spec_external_input(),
    {
        &self.external_input
    }

    /// Set the weighting factors's referenced logical file.
    pub fn set_referenced_logical_file(&mut self, referenced_logical_file: [u32; 3]) -> (r:
        &mut Self)
        ensures
            r.spec_referenced_logical_file() == referenced_logical_file@,
            r.spec_external_query() == old(self).spec_external_query(),
            r.spec_external_output() == old(self).spec_external_output(),
            r.spec_external_input() == old(self).spec_external_input(),
            *final(self) == *final(r),
    {
        self.referenced_logical_file = referenced_logical_file;
        self
    }

    /// Set the weighting factors's external query.
    pub fn set_external_query(&mut self, external_query: [u32; 3]) -> (r: &mut Self)
        ensures
            r.spec_referenced_logical_file() == old(self).spec_referenced_logical_file(),
            r.spec_external_query() == external_query@,
            r.spec_external_output() == old(self).spec_external_output(),
            r.spec_external_input() == old(self).spec_external_input(),
            *final(self) == *final(r),
    {
        self.external_query = external_query;
        self
    }

    /// Set the weighting factors's external output.
    pub fn set_external_output(&mut self, external_output: [u32; 3]) -> (r: &mut Self)
        ensures
            r.spec_referenced_logical_file() == old(self).spec_referenced_logical_file(),
            r.spec_external_query() == old(self).spec_external_query(),
            r.spec_external_output() == external_output@,
            r.spec_external_input() == old(self).spec_external_input(),
            *final(self) == *final(r),
    {
        self.external_output = external_output;
        self
    }

    /// Set the weighting factors's external input.
    pub fn set_external_input(&mut self, external_input: [u32; 3]) -> (r: &mut Self)
        ensures
            r.spec_referenced_logical_file() == old(self).spec_referenced_logical_file(),
            r.spec_external_query() == old(self).spec_external_query(),
            r.spec_external_output() == old(self).spec_external_output(),
            r.spec_external_input() == external_input@,
            *final(self) == *final(r),
    {
        self.external_input = external_input;
        self
    }
}

} // verus!
