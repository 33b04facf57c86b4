//! Data-driven tests from data files.
//!
//! A test function that takes parameters is paired with a file of records: the generator
//! writes a test without parameters that reads the file, decodes it into records, and
//! calls the function once per record, with the record's fields as arguments.
//!
//! * [`format`] holds the registry of supported file formats.
//! * [`config`] reads the configuration of a test: the path of the file and its kind.
//! * [`signature`] describes the target function and reads the schema of a record off it.
//! * [`emit`] writes the body of the test for each kind of file.
//! * [`rewrite`] writes the target function out again under a derived name.
//! * [`generate`] puts these together: [`test_data_file`] is the generator.
//! * [`records`] and [`mapping`] state what a generated test does with its file when it
//!   runs: how a list file splits into records, how a collection flattens, and how a test
//!   fails.
//! * [`laws`] proves what holds of all of this in general.

pub mod config;
pub mod emit;
pub mod format;
pub mod generate;
pub mod laws;
pub mod mapping;
pub mod records;
pub mod rewrite;
pub mod signature;
pub mod text;

pub use generate::test_data_file;
