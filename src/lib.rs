//! CRUD method generation for entity definitions.
//!
//! The library reads the name of a struct definition, renders the `impl`
//! block with the four CRUD stubs bound to that name, and computes the
//! lines those stubs print.
pub mod decimal;
pub mod generate;
pub mod derive;
pub mod messages;
pub mod entity;
pub mod laws;
