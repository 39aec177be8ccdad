//! Batch schema validation: compile a JSON Schema once, evaluate YAML or JSON
//! documents against it, and report every violation together with the paths
//! into the document and into the schema that produced it.

pub mod backend;
pub mod batch;
pub mod errors;
pub mod evaluate;
pub mod laws;
pub mod normalize;
pub mod schema;
