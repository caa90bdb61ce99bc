//! Runtime type algebra of a Move-style virtual machine: substitution of type
//! parameters, canonical type tags, value layouts with resource kinds, resource
//! classification and diagnostic printing, each proved against a ghost model.
pub mod types;
pub mod subst;
pub mod tag;
pub mod layout;
pub mod format;
pub mod laws;
