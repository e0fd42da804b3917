//! Error types of the watcher, and the outside error types they carry.

use vstd::prelude::*;

verus! {

/// `std::io::Error`, carried through unchanged.
#[verifier::external_type_specification]
#[verifier::external_body]
pub struct ExIoError(std::io::Error);

/// `glob::PatternError`, carried through unchanged.
#[verifier::external_type_specification]
#[verifier::external_body]
pub struct ExPatternError(glob::PatternError);

/// `glob::GlobError`, carried through unchanged.
#[verifier::external_type_specification]
#[verifier::external_body]
pub struct ExGlobError(glob::GlobError);

/// `chrono::ParseError`, carried through unchanged.
#[verifier::external_type_specification]
#[verifier::external_body]
pub struct ExChronoParseError(chrono::ParseError);

/// Errors that stop a watcher.
#[derive(Debug)]
pub enum WatcherError {
    Unknown,
    PatternError(glob::PatternError),
    GlobError(glob::GlobError),
    IOError(std::io::Error),
    TimeParseError(chrono::ParseError),
}

} // verus!
