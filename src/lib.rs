//! Record keeping and certificate layout for equipment calibrations.
//!
//! The library decides what the embedded store runs (schema, migration
//! steps, the statements of each write) and interprets what comes back,
//! and it lays out the certificate page. Running statements and drawing
//! the page happen outside, in the application shell.
pub mod model;
pub mod statement;
pub mod layout;
pub mod store;
pub mod tables;
pub mod schema;
pub mod paths;
