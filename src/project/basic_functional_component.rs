pub use elementary_data_referenced::ElementaryDataReferenced;
pub use file_registry::FileRegistry;

pub mod draft;
mod elementary_data_referenced;
mod file_registry;

use vstd::prelude::*;

verus! {

/// How heavy a functional component is, once classified by the standard count tables.
#[derive(Clone, Copy, PartialEq, Eq, Structural, Debug)]
pub enum Complexity {
    Simple,
    Middle,
    Complex,
}

/// The five kinds of functional component that function point analysis counts.
#[derive(Clone, Copy, PartialEq, Eq, Structural, Debug)]
pub enum FunctionalClassification {
    ExternalInput,
    ExternalOutput,
    ExternalQuery,
    InternalLogicalFile,
    ExternalInterfaceFile,
}

impl Complexity {
    /// Position of the level in the order Simple < Middle < Complex.
    pub open spec fn rank(self) -> nat {
        match self {
            Complexity::Simple => 0,
            Complexity::Middle => 1,
            Complexity::Complex => 2,
        }
    }

    /// Column of this level in the summary and weighting tables.
    pub fn level(&self) -> (r: usize)
        ensures
            r == self.rank(),
    {
        match self {
            Complexity::Simple => 0,
            Complexity::Middle => 1,
            Complexity::Complex => 2,
        }
    }
}

/// Levels compare by their rank: Simple < Middle < Complex.
pub open spec fn compare_ranks(a: nat, b: nat) -> core::cmp::Ordering {
    if a < b {
        core::cmp::Ordering::Less
    } else if a == b {
        core::cmp::Ordering::Equal
    } else {
        core::cmp::Ordering::Greater
    }
}

impl PartialOrd for Complexity {
    fn partial_cmp(&self, other: &Complexity) -> (r: Option<core::cmp::Ordering>)
        ensures
            r == Some(compare_ranks(self.rank(), other.rank())),
    {
        let a = self.level();
        let b = other.level();
        if a < b {
            Some(core::cmp::Ordering::Less)
        } else if a == b {
            Some(core::cmp::Ordering::Equal)
        } else {
            Some(core::cmp::Ordering::Greater)
        }
    }
}

impl vstd::std_specs::cmp::PartialOrdSpecImpl for Complexity {
    open spec fn obeys_partial_cmp_spec() -> bool {
        true
    }

    open spec fn partial_cmp_spec(&self, other: &Complexity) -> Option<core::cmp::Ordering> {
        Some(compare_ranks(self.rank(), other.rank()))
    }
}

/// The greater of two levels.
pub open spec fn greater_complexity(a: Complexity, b: Complexity) -> Complexity {
    if a.rank() >= b.rank() {
        a
    } else {
        b
    }
}

/// Table for data at rest (internal logical and external interface files), indexed by the
/// number of record types and of data elements. A record-type count of zero reads the first
/// row, as a count of one does.
pub open spec fn logic_files_table(records: nat, elements: nat) -> Complexity {
    if records <= 1 {
        if elements <= 50 {
            Complexity::Simple
        } else {
            Complexity::Middle
        }
    } else if 2 <= records <= 5 {
        if elements <= 19 {
            Complexity::Simple
        } else if elements <= 50 {
            Complexity::Middle
        } else {
            Complexity::Complex
        }
    } else {
        if elements <= 19 {
            Complexity::Middle
        } else {
            Complexity::Complex
        }
    }
}

/// Table for external inputs, indexed by referenced files and data elements.
pub open spec fn external_input_table(files: nat, elements: nat) -> Complexity {
    if files <= 1 {
        if elements <= 15 {
            Complexity::Simple
        } else {
            Complexity::Middle
        }
    } else if files == 2 {
        if elements <= 4 {
            Complexity::Simple
        } else if elements <= 15 {
            Complexity::Middle
        } else {
            Complexity::Complex
        }
    } else {
        if elements <= 4 {
            Complexity::Middle
        } else {
            Complexity::Complex
        }
    }
}

/// Table for external queries, indexed by referenced files and data elements.
pub open spec fn external_query_table(files: nat, elements: nat) -> Complexity {
    if files <= 1 {
        if elements <= 19 {
            Complexity::Simple
        } else {
            Complexity::Middle
        }
    } else if files <= 3 {
        if elements <= 5 {
            Complexity::Simple
        } else if elements <= 19 {
            Complexity::Middle
        } else {
            Complexity::Complex
        }
    } else {
        if elements <= 5 {
            Complexity::Middle
        } else {
            Complexity::Complex
        }
    }
}

/// The complexity of a component of kind `fc` with the given counts. An external output takes
/// the greater of its output channel, read on the query table, and its input channel, read on
/// the input table, each with its own file and data-element counts.
pub open spec fn complexity_of(
    fc: FunctionalClassification,
    fr: FileRegistry,
    edr: ElementaryDataReferenced,
) -> Complexity {
    match fc {
        FunctionalClassification::InternalLogicalFile
        | FunctionalClassification::ExternalInterfaceFile => logic_files_table(
            fr.spec_total(),
            edr.spec_total(),
        ),
        FunctionalClassification::ExternalInput => external_input_table(
            fr.spec_total(),
            edr.spec_total(),
        ),
        FunctionalClassification::ExternalQuery => external_query_table(
            fr.spec_total(),
            edr.spec_total(),
        ),
        FunctionalClassification::ExternalOutput => greater_complexity(
            external_query_table(fr.output as nat, edr.spec_output()),
            external_input_table(fr.input as nat, edr.spec_input()),
        ),
    }
}

/// Complexity never decreases as the counts grow: of the totals for the file kinds, external
/// inputs and external queries, and of the counts of each channel for an external output.
pub proof fn lemma_complexity_monotonic(
    fc: FunctionalClassification,
    fr1: FileRegistry,
    edr1: ElementaryDataReferenced,
    fr2: FileRegistry,
    edr2: ElementaryDataReferenced,
)
    requires
        fc is ExternalOutput ==> {
            &&& fr1.input <= fr2.input
            &&& fr1.output <= fr2.output
            &&& edr1.spec_input() <= edr2.spec_input()
            &&& edr1.spec_output() <= edr2.spec_output()
        },
        !(fc is ExternalOutput) ==> fr1.spec_total() <= fr2.spec_total() && edr1.spec_total()
            <= edr2.spec_total(),
    ensures
        complexity_of(fc, fr1, edr1).rank() <= complexity_of(fc, fr2, edr2).rank(),
{
}

fn input_table(files: u64, elements: u64) -> (r: Complexity)
    ensures
        r == external_input_table(files as nat, elements as nat),
{
    if files <= 1 {
        if elements <= 15 {
            Complexity::Simple
        } else {
            Complexity::Middle
        }
    } else if files == 2 {
        if elements <= 4 {
            Complexity::Simple
        } else if elements <= 15 {
            Complexity::Middle
        } else {
            Complexity::Complex
        }
    } else {
        if elements <= 4 {
            Complexity::Middle
        } else {
            Complexity::Complex
        }
    }
}

fn query_table(files: u64, elements: u64) -> (r: Complexity)
    ensures
        r == external_query_table(files as nat, elements as nat),
{
    if files <= 1 {
        if elements <= 19 {
            Complexity::Simple
        } else {
            Complexity::Middle
        }
    } else if files <= 3 {
        if elements <= 5 {
            Complexity::Simple
        } else if elements <= 19 {
            Complexity::Middle
        } else {
            Complexity::Complex
        }
    } else {
        if elements <= 5 {
            Complexity::Middle
        } else {
            Complexity::Complex
        }
    }
}

/// A functional component being counted: its kind is fixed when it is made, and its
/// complexity follows its two counts.
#[derive(PartialEq, Debug, Clone)]
pub struct BasicFunctionalComponent {
    name: String,
    functional_classification: FunctionalClassification,
    elementary_data_referenced: ElementaryDataReferenced,
    file_record: FileRegistry,
    complexity: Complexity,
}

impl BasicFunctionalComponent {
    pub closed spec fn spec_name(self) -> Seq<char> {
        self.name@
    }

    pub closed spec fn spec_classification(self) -> FunctionalClassification {
        self.functional_classification
    }

    pub closed spec fn spec_edr(self) -> ElementaryDataReferenced {
        self.elementary_data_referenced
    }

    pub closed spec fn spec_file_record(self) -> FileRegistry {
        self.file_record
    }

    pub closed spec fn spec_complexity(self) -> Complexity {
        self.complexity
    }

    /// The stored complexity is the one that the tables give for the current counts.
    pub open spec fn is_classified(self) -> bool {
        self.spec_complexity() == complexity_of(
            self.spec_classification(),
            self.spec_file_record(),
            self.spec_edr(),
        )
    }

    /// A component with no data elements and no referenced files, already classified.
    pub fn new(name: &'static str, fc: FunctionalClassification) -> (r: Self)
        ensures
            r.spec_name() == name@,
            r.spec_classification() == fc,
            r.spec_edr().spec_input() == 0,
            r.spec_edr().spec_output() == 0,
            r.spec_file_record() == (FileRegistry { input: 0, output: 0 }),
            r.is_classified(),
    {
        let mut bfc = BasicFunctionalComponent {
            name: name.to_string(),
            functional_classification: fc,
            elementary_data_referenced: ElementaryDataReferenced::new(0, 0),
            file_record: FileRegistry::new(0, 0),
            complexity: Complexity::Simple,
        };
        bfc.compute_complexity();
        bfc
    }

    /// Set the Elementary Data Referenced, and classify again.
    pub fn set_edr(&mut self, red: ElementaryDataReferenced) -> (r: &mut Self)
        ensures
            r.spec_name() == old(self).spec_name(),
            r.spec_classification() == old(self).spec_classification(),
            r.spec_edr() == red,
            r.spec_file_record() == old(self).spec_file_record(),
            r.is_classified(),
            *final(self) == *final(r),
    {
        self.elementary_data_referenced = red;
        self.compute_complexity();
        self
    }

    /// Set the File Registry, and classify again.
    pub fn set_file_registry(&mut self, file_record: FileRegistry) -> (r: &mut Self)
        ensures
            r.spec_name() == old(self).spec_name(),
            r.spec_classification() == old(self).spec_classification(),
            r.spec_edr() == old(self).spec_edr(),
            r.spec_file_record() == file_record,
            r.is_classified(),
            *final(self) == *final(r),
    {
        self.file_record = file_record;
        self.compute_complexity();
        self
    }

    fn compute_complexity(&mut self)
        ensures
            final(self).spec_name() == old(self).spec_name(),
            final(self).spec_classification() == old(self).spec_classification(),
            final(self).spec_edr() == old(self).spec_edr(),
            final(self).spec_file_record() == old(self).spec_file_record(),
            final(self).is_classified(),
    {
        self.complexity = match self.functional_classification {
            FunctionalClassification::ExternalInterfaceFile
            | FunctionalClassification::InternalLogicalFile => self.logic_files_complexity(),
            FunctionalClassification::ExternalInput => self.external_input_complexity(),
            FunctionalClassification::ExternalOutput => self.external_output_complexity(),
            FunctionalClassification::ExternalQuery => self.external_query_complexity(),
        };
    }

    fn logic_files_complexity(&self) -> (r: Complexity)
        ensures
            r == logic_files_table(
                self.file_record.spec_total(),
                self.elementary_data_referenced.spec_total(),
            ),
    {
        let records = self.file_record.total();
        let elements = self.elementary_data_referenced.total();
        if records <= 1 {
            if elements <= 50 {
                Complexity::Simple
            } else {
                Complexity::Middle
            }
        } else if 2 <= records && records <= 5 {
            if elements <= 19 {
                Complexity::Simple
            } else if elements <= 50 {
                Complexity::Middle
            } else {
                Complexity::Complex
            }
        } else {
            if elements <= 19 {
                Complexity::Middle
            } else {
                Complexity::Complex
            }
        }
    }

    fn external_input_complexity(&self) -> (r: Complexity)
        ensures
            r == external_input_table(
                self.file_record.spec_total(),
                self.elementary_data_referenced.spec_total(),
            ),
    {
        input_table(self.file_record.total(), self.elementary_data_referenced.total())
    }

    fn external_query_complexity(&self) -> (r: Complexity)
        ensures
            r == external_query_table(
                self.file_record.spec_total(),
                self.elementary_data_referenced.spec_total(),
            ),
    {
        query_table(self.file_record.total(), self.elementary_data_referenced.total())
    }

    fn external_output_complexity(&self) -> (r: Complexity)
        ensures
            r == greater_complexity(
                external_query_table(
                    self.file_record.output as nat,
                    self.elementary_data_referenced.spec_output(),
                ),
                external_input_table(
                    self.file_record.input as nat,
                    self.elementary_data_referenced.spec_input(),
                ),
            ),
    {
        let complexity_output = query_table(
            self.file_record.output as u64,
            *self.elementary_data_referenced.output() as u64,
        );
        let complexity_input = input_table(
            self.file_record.input as u64,
            *self.elementary_data_referenced.input() as u64,
        );
        if complexity_output >= complexity_input {
            complexity_output
        } else {
            complexity_input
        }
    }

    /// Get a reference to the basic functional component's name.
    pub fn name(&self) -> (r: &String)
        ensures
            r@ == self.spec_name(),
    {
        &self.name
    }

    /// Get a reference to the basic functional component's functional classification.
    pub fn functional_classification(&self) -> (r: &FunctionalClassification)
        ensures
            *r == self.spec_classification(),
    {
        &self.functional_classification
    }

    /// Get a reference to the basic functional component's elementary data referenced.
    pub fn elementary_data_referenced(&self) -> (r: &ElementaryDataReferenced)
        ensures
            *r == self.spec_edr(),
    {
        &self.elementary_data_referenced
    }

    /// Get a reference to the basic functional component's file record.
    pub fn file_record(&self) -> (r: &FileRegistry)
        ensures
            *r == self.spec_file_record(),
    {
        &self.file_record
    }

    /// Get a reference to the basic functional component's complexity.
    pub fn complexity(&self) -> (r: &Complexity)
        ensures
            *r == self.spec_complexity(),
    {
        &self.complexity
    }
}

} // verus!
