//! The ways in which a load or a catalog lookup can fail.

use crate::table::Table;
use crate::text::{decimal, push_decimal};
use vstd::prelude::*;
use vstd::string::*;

verus! {

/// The part of staging a table's transfer file that went wrong.
#[derive(Clone, Copy, Debug, PartialEq, Eq, Structural)]
pub enum StagingPhase {
    /// The staging area or the file could not be created or written.
    Write,
    /// The file could not be removed after it had been ingested.
    Remove,
}

/// Why a load was given up.
#[derive(Clone, Copy, Debug, PartialEq, Eq, Structural)]
pub enum LoadError {
    /// The partition count and the partition index do not describe a
    /// partition; both are carried for diagnostics.
    InvalidPartitionSpec { children: i64, step: i64 },
    /// The store could not empty the tables.
    ResetFailed,
    /// The transfer file of a table could not be written or removed.
    StagingIOError { table: Table, phase: StagingPhase },
    /// The store rejected the transfer file of a table.
    IngestError { table: Table },
}

/// Why a catalog lookup found nothing.
#[derive(Clone, Copy, Debug, PartialEq, Eq, Structural)]
pub enum QueryError {
    /// The catalog has no query of this number.
    UnknownQueryNumber { number: i32 },
}

impl LoadError {
    /// The text that describes this error to a person.
    pub open spec fn spec_message(self) -> Seq<char> {
        match self {
            LoadError::InvalidPartitionSpec { children, step } => "invalid partition: children="@
                + decimal(children as int) + ", step="@ + decimal(step as int),
            LoadError::ResetFailed => "cannot reset the tables"@,
            LoadError::StagingIOError { table, phase: StagingPhase::Write } =>
                "cannot write the transfer file of table "@ + table.spec_name(),
            LoadError::StagingIOError { table, phase: StagingPhase::Remove } =>
                "cannot remove the transfer file of table "@ + table.spec_name(),
            LoadError::IngestError { table } => "cannot ingest the transfer file of table "@
                + table.spec_name(),
        }
    }

    /// The text that describes this error to a person.
    pub fn message(&self) -> (text: String)
        ensures
            text@ == self.spec_message(),
    {
        match *self {
            LoadError::InvalidPartitionSpec { children, step } => {
                let mut text = String::from_str("invalid partition: children=");
                push_decimal(&mut text, children);
                text.append(", step=");
                push_decimal(&mut text, step);
                text
            },
            LoadError::ResetFailed => String::from_str("cannot reset the tables"),
            LoadError::StagingIOError { table, phase: StagingPhase::Write } => {
                let mut text = String::from_str("cannot write the transfer file of table ");
                text.append(table.name());
                text
            },
            LoadError::StagingIOError { table, phase: StagingPhase::Remove } => {
                let mut text = String::from_str("cannot remove the transfer file of table ");
                text.append(table.name());
                text
            },
            LoadError::IngestError { table } => {
                let mut text = String::from_str("cannot ingest the transfer file of table ");
                text.append(table.name());
                text
            },
        }
    }
}

impl QueryError {
    /// The text that describes this error to a person.
    pub open spec fn spec_message(self) -> Seq<char> {
        match self {
            QueryError::UnknownQueryNumber { number } => "unknown query number "@ + decimal(
                number as int,
            ) + ": it must be between 1 and 22 (inclusive)"@,
        }
    }

    /// The text that describes this error to a person.
    pub fn message(&self) -> (text: String)
        ensures
            text@ == self.spec_message(),
    {
        match *self {
            QueryError::UnknownQueryNumber { number } => {
                let mut text = String::from_str("unknown query number ");
                push_decimal(&mut text, number as i64);
                text.append(": it must be between 1 and 22 (inclusive)");
                text
            },
        }
    }
}

} // verus!
