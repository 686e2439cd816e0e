//! Planning of a project export: the name of the export folder, the files it
//! receives, and the result that the caller is given once the files are on
//! storage.

pub mod guarantees;
pub mod image;
pub mod name;
pub mod path;
pub mod plan;
