//! Agent file sources and their validation verdicts.
//!
//! Agent files come either from defaults embedded in the binary or from a
//! user-chosen directory.  Whether a given file actually exists is a
//! filesystem question answered outside the library; the classification of
//! those answers into a verdict lives here.

use vstd::prelude::*;

verus! {

/// Source for agent files: embedded defaults or a custom directory path.
#[derive(Debug, Clone)]
pub enum AgentSource {
    /// Use embedded default files.
    Embedded,
    /// Use files from a custom directory path.
    Custom(String),
}

impl Default for AgentSource {
    fn default() -> (r: Self)
        ensures
            r == AgentSource::Embedded,
    {
        AgentSource::Embedded
    }
}

/// Validation verdict for one file.
#[derive(Debug, Clone, PartialEq, Eq, Structural)]
pub enum FileStatus {
    /// File exists and is readable.
    Present,
    /// File is missing, and optional.
    Missing,
    /// File is required but missing.
    RequiredMissing,
}

/// Validation verdict for an agent source, one status per agent file.
#[derive(Debug, Clone, PartialEq, Eq, Structural)]
pub struct ValidationResult {
    pub ship_file: FileStatus,
    pub soul_md: FileStatus,
    pub skill_md: FileStatus,
    pub heartbeat_md: FileStatus,
}

/// The status a file gets from whether it exists and whether it is required.
pub open spec fn file_status_of(exists: bool, required: bool) -> FileStatus {
    if exists {
        FileStatus::Present
    } else if required {
        FileStatus::RequiredMissing
    } else {
        FileStatus::Missing
    }
}

impl ValidationResult {
    /// Classify the four agent files from whether each exists: the ship file
    /// is required, the three markdown files are optional.
    pub fn validate(
        ship_file_exists: bool,
        soul_md_exists: bool,
        skill_md_exists: bool,
        heartbeat_md_exists: bool,
    ) -> (r: ValidationResult)
        ensures
            r.ship_file == file_status_of(ship_file_exists, true),
            r.soul_md == file_status_of(soul_md_exists, false),
            r.skill_md == file_status_of(skill_md_exists, false),
            r.heartbeat_md == file_status_of(heartbeat_md_exists, false),
    {
        ValidationResult {
            ship_file: if ship_file_exists {
                FileStatus::Present
            } else {
                FileStatus::RequiredMissing
            },
            soul_md: if soul_md_exists {
                FileStatus::Present
            } else {
                FileStatus::Missing
            },
            skill_md: if skill_md_exists {
                FileStatus::Present
            } else {
                FileStatus::Missing
            },
            heartbeat_md: if heartbeat_md_exists {
                FileStatus::Present
            } else {
                FileStatus::Missing
            },
        }
    }

    /// Whether the source is usable: no required file is missing.
    pub fn is_valid(&self) -> (r: bool)
        ensures
            r == (self.ship_file != FileStatus::RequiredMissing),
    {
        self.ship_file != FileStatus::RequiredMissing
    }
}

} // verus!
