//! Extracts projects, milestones, issues, merge requests, time logs and users
//! of a GitLab group, and lays them out as rows of a relational store.
//!
//! The library holds the decisions: how identifiers are decoded, how pages of
//! the API's answers are checked and turned into records, in which order the
//! pages are asked for, and which statements write the store.

use vstd::prelude::*;

pub mod db;
pub mod decode;
pub mod fetch;
pub mod id;
pub mod model;

verus! {

/// A response of the API lacked something that it must hold.
#[derive(Clone, Debug, PartialEq, Eq)]
pub enum FetchError {
    FetchError(String),
}

impl FetchError {
    /// The error that carries the given message.
    pub fn from(s: &str) -> (r: FetchError)
        ensures
            r matches FetchError::FetchError(m) && m@ == s@,
    {
        FetchError::FetchError(s.to_owned())
    }
}

/// A statement on the store failed.
#[derive(Clone, Debug, PartialEq, Eq)]
pub enum DbError {
    DbError(String),
}

/// Why a run stopped.
#[derive(Clone, Debug, PartialEq, Eq)]
pub enum PipelineError {
    /// A response lacked an object it must hold.
    Fetch(FetchError),
    /// An opaque identifier did not end in a number.
    Id(crate::id::IdError),
    /// A display number was not the text of a `u32`.
    Number(String),
}

} // verus!
