//! Part-of-speech tag sets and the projection of the OntoNotes 5 tags onto the
//! Universal Dependencies tags.
pub mod projection;
pub mod tags;

pub use projection::project;
pub use tags::{OntoNotes5, UniversalDependencies};
