//! A schema-aware reader for the USLM legislative markup dialect.
//!
//! Text is read in a single forward pass into a typed tree: a short header of
//! processing instructions followed by nested elements whose tag names and
//! attribute keys come from closed vocabularies. Every reader states, as a
//! verified contract over the bytes of its input, exactly what it accepts,
//! what it returns and how far it moves the cursor.

pub mod attributes;
pub mod common;
pub mod doc;
pub mod error;
pub mod forms;
pub mod header;
pub mod names;
pub mod tags;
pub mod text;
pub mod uslm;

pub use crate::uslm::Uslm;
