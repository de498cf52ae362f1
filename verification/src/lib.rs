//! A detection and hunting engine for structured event logs.
//!
//! Log records are normalised into a uniform field space ([`file::Document`]),
//! gated by declarative mappings ([`hunt::Mapping`]) and evaluated against
//! detection rules ([`rule::Rule`]) by the hunter ([`hunt::Hunter`]), or
//! filtered by time, identifier and text by the searcher
//! ([`search::Searcher`]).

use vstd::prelude::*;

pub mod cli;
pub mod file;
pub mod hunt;
pub mod rule;
pub mod search;
pub mod strings;
pub mod value;

verus! {

/// The error taxonomy of the engine.
///
/// Per-record problems are local; configuration problems are fatal at build
/// time; unreadable containers and paths are fatal at the file level unless
/// `skip_errors` suppresses them.
#[derive(Clone, Copy, Debug, PartialEq, Eq, Structural)]
pub enum Error {
    /// A record's required creation timestamp is missing or unparsable.
    Timestamp,
    /// The searcher was given a regular expression that does not compile.
    InvalidRegex,
    /// The searcher was built with neither a pattern nor a regular expression.
    MissingFilter,
    /// A container or record could not be decoded.
    Decode,
    /// A path could not be read.
    Io,
}

impl Error {
    /// The wording used when an error of this kind is reported.
    pub open spec fn message_spec(&self) -> Seq<char> {
        match self {
            Error::Timestamp => "could not get timestamp"@,
            Error::InvalidRegex => "invalid regular expression"@,
            Error::MissingFilter => "no pattern or regular expression was set"@,
            Error::Decode => "could not decode the container"@,
            Error::Io => "could not read the path"@,
        }
    }

    /// A human-readable description of the error.
    pub fn message(&self) -> (r: String)
        ensures
            r@ == self.message_spec(),
    {
        match self {
            Error::Timestamp => String::from_str("could not get timestamp"),
            Error::InvalidRegex => String::from_str("invalid regular expression"),
            Error::MissingFilter => String::from_str("no pattern or regular expression was set"),
            Error::Decode => String::from_str("could not decode the container"),
            Error::Io => String::from_str("could not read the path"),
        }
    }
}

} // verus!
