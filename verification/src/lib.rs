//! Generation of typed row definitions and insert routines from a table
//! catalogue.

pub mod denylist;
pub mod emit;
pub mod fields;
pub mod grouping;
pub mod insert;
pub mod naming;
pub mod schema;
pub mod scope;
pub mod text;
pub mod type_map;
