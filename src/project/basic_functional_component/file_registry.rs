use vstd::prelude::*;

verus! {

/// The files or record types (FTR / RET) that a component references, counted per direction.
#[derive(Clone, Copy, PartialEq, Eq, Structural, Debug, Default)]
pub struct FileRegistry {
    pub input: u32,
    pub output: u32,
}

impl FileRegistry {
    /// All referenced files, both directions together.
    pub open spec fn spec_total(self) -> nat {
        self.input as nat + self.output as nat
    }

    pub fn new(input: u32, output: u32) -> (r: Self)
        ensures
            r.input == input,
            r.output == output,
    {
        Self { input, output }
    }

    pub fn total(&self) -> (r: u64)
        ensures
            r == self.spec_total(),
    {
        self.input as u64 + self.output as u64
    }
}

} // verus!
