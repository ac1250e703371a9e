use super::basic_functional_component::{Complexity, FunctionalClassification};
use vstd::prelude::*;

verus! {

/// How many components were counted of each kind (one row) at each complexity level (one
/// column: Simple, Middle, Complex).
#[derive(Clone, Copy, Debug, Default)]
pub struct Summary {
    pub internal_logical_file: [u32; 3],
    pub external_interface_file: [u32; 3],
    pub external_query: [u32; 3],
    pub external_output: [u32; 3],
    pub external_input: [u32; 3],
}

impl Summary {
    /// The row that counts components of kind `fc`.
    pub open spec fn row(self, fc: FunctionalClassification) -> [u32; 3] {
        match fc {
            FunctionalClassification::InternalLogicalFile => self.internal_logical_file,
            FunctionalClassification::ExternalInterfaceFile => self.external_interface_file,
            FunctionalClassification::ExternalInput => self.external_input,
            FunctionalClassification::ExternalOutput => self.external_output,
            FunctionalClassification::ExternalQuery => self.external_query,
        }
    }

    /// The number of components counted of kind `fc` and complexity `cx`.
    pub open spec fn count(self, fc: FunctionalClassification, cx: Complexity) -> nat {
        self.row(fc)@[cx.rank() as int] as nat
    }

    /// A table with every count zero.
    pub fn new() -> (r: Self)
        ensures
            forall|fc: FunctionalClassification, cx: Complexity| #[trigger] r.count(fc, cx) == 0,
    {
        Summary {
            internal_logical_file: [0, 0, 0],
            external_interface_file: [0, 0, 0],
            external_query: [0, 0, 0],
            external_output: [0, 0, 0],
            external_input: [0, 0, 0],
        }
    }

    /// Count one more component of kind `fc` and complexity `cx`. Returns false, and leaves the
    /// table as it was, when that count is already at its largest.
    pub(crate) fn increment(&mut self, fc: FunctionalClassification, cx: Complexity) -> (r: bool)
        ensures
            r == (old(self).count(fc, cx) < u32::MAX),
            r ==> forall|f: FunctionalClassification, c: Complexity| #[trigger]
                final(self).count(f, c) == old(self).count(f, c) + if f == fc && c == cx {
                    1int
                } else {
                    0int
                },
            !r ==> *final(self) == *old(self),
    {
        let level = cx.level();
        let row: &mut [u32; 3] = match fc {
            FunctionalClassification::InternalLogicalFile => &mut self.internal_logical_file,
            FunctionalClassification::ExternalInterfaceFile => &mut self.external_interface_file,
            FunctionalClassification::ExternalInput => &mut self.external_input,
            FunctionalClassification::ExternalOutput => &mut self.external_output,
            FunctionalClassification::ExternalQuery => &mut self.external_query,
        };
        if row[level] == u32::MAX {
            return false;
        }
        row[level] = row[level] + 1;
        true
    }
}

} // verus!
