//! Function point analysis: components are classified by the standard count tables, tallied
//! by kind and complexity, weighted, adjusted by the fourteen influence factors, and costed.

pub mod project;

pub use project::adjustment_factors::AdjustmentFactors;
pub use project::basic_functional_component::draft::DraftBasicFunctionalComponent;
pub use project::basic_functional_component::{
    BasicFunctionalComponent, Complexity, ElementaryDataReferenced, FileRegistry,
    FunctionalClassification,
};
pub use project::summary::Summary;
pub use project::weighting_factors::WeightingFactors;
pub use project::{Project, ProjectError};
