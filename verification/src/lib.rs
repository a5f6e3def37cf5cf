//! Library for picking Bible verses at random from a remote verse provider.
//!
//! The library holds the verified core: seed derivation, random index
//! selection, JSON response decoding, and the step-by-step verse resolution
//! pipeline. Network transport is left to the surrounding application, which
//! feeds each fetched response body back into the resolver.

use vstd::prelude::*;

pub mod display;
pub mod gateway;
pub mod json;
pub mod resolver;
pub mod rng;
pub mod utils;

verus! {

/// API credentials and the Bible version to query, as opaque strings.
pub struct Config {
    pub api_key: Option<String>,
    pub bible_version: Option<String>,
}

impl Config {
    pub fn new(api_key: Option<String>, bible_version: Option<String>) -> (c: Config)
        ensures
            c.api_key == api_key,
            c.bible_version == bible_version,
    {
        Config { api_key, bible_version }
    }

    pub fn api_key(&self) -> (r: &str)
        requires
            self.api_key is Some,
        ensures
            r@ == self.api_key->0@,
    {
        match &self.api_key {
            Some(k) => k.as_str(),
            None => unreached(),
        }
    }

    pub fn bible_version(&self) -> (r: &str)
        requires
            self.bible_version is Some,
        ensures
            r@ == self.bible_version->0@,
    {
        match &self.bible_version {
            Some(v) => v.as_str(),
            None => unreached(),
        }
    }
}

/// A response body did not decode into the shape an operation expects.
#[derive(Clone, Copy, Debug, PartialEq, Eq, Structural)]
pub enum JSONError {
    ErrorWithBibles,
    ErrorWithBooks,
    ErrorWithChapters,
    ErrorWithVerses,
    ErrorWithBibleVersion,
}

/// A selection step had nothing to select from, or a named book had no match.
#[derive(Clone, Copy, Debug, PartialEq, Eq, Structural)]
pub enum BibleError {
    InvalidBook,
    NoBooksAvailable,
    NoChaptersAvailable,
    NoVersesAvailable,
}

/// The hex prefix of a date digest did not parse as a 64-bit integer.
#[derive(Clone, Copy, Debug, PartialEq, Eq, Structural)]
pub struct SeedDerivationError;

/// Any failure of the resolution pipeline.
#[derive(Clone, Copy, Debug, PartialEq, Eq, Structural)]
pub enum VerseError {
    Decode(JSONError),
    Resolve(BibleError),
    Seed(SeedDerivationError),
}

} // verus!
