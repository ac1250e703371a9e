use vstd::prelude::*;

verus! {

/// The elementary data (DET) that a component references, counted per direction.
#[derive(Clone, Copy, PartialEq, Eq, Structural, Debug, Default)]
pub struct ElementaryDataReferenced {
    input: u32,
    output: u32,
}

impl ElementaryDataReferenced {
    /// Data elements on the input side.
    pub closed spec fn spec_input(self) -> nat {
        self.input as nat
    }

    /// Data elements on the output side.
    pub closed spec fn spec_output(self) -> nat {
        self.output as nat
    }

    /// All data elements, both directions together.
    pub open spec fn spec_total(self) -> nat {
        self.spec_input() + self.spec_output()
    }

    pub fn new(input: u32, output: u32) -> (r: Self)
        ensures
            r.spec_input() == input,
            r.spec_output() == output,
    {
        Self { input, output }
    }

    pub fn total(&self) -> (r: u64)
        ensures
            r == self.spec_total(),
    {
        self.input as u64 + self.output as u64
    }

    /// Get a reference to the elementary data referenced's input.
    pub fn input(&self) -> (r: &u32)
        ensures
            *r == self.spec_input(),
    {
        &self.input
    }

    /// Get a reference to the elementary data referenced's output.
    pub fn output(&self) -> (r: &u32)
        ensures
            *r == self.spec_output(),
    {
        &self.output
    }
}

} // verus!
