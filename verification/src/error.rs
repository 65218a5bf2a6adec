//! The stages at which a run can fail, and the failures that this library
//! reports itself.

use vstd::prelude::*;

verus! {

/// The stage of a run at which a failure arose.
#[derive(Clone, Copy, Debug, PartialEq, Eq, Structural)]
pub enum Stage {
    /// Reading the point records.
    Ingestion,
    /// Deriving the raster from the settings and the points.
    Configuration,
    /// Writing the rows.
    Sink,
}

impl Stage {
    /// The word that names the stage in a message.
    pub open spec fn name_spec(self) -> Seq<char> {
        match self {
            Stage::Ingestion => "ingestion"@,
            Stage::Configuration => "configuration"@,
            Stage::Sink => "sink"@,
        }
    }

    /// The word that names the stage in a message.
    pub fn name(self) -> (r: &'static str)
        ensures
            r@ == self.name_spec(),
    {
        match self {
            Stage::Ingestion => "ingestion",
            Stage::Configuration => "configuration",
            Stage::Sink => "sink",
        }
    }
}

/// A raster cannot be derived from the settings and the points.
#[derive(Clone, Copy, Debug, PartialEq, Eq, Structural)]
pub enum ConfigError {
    /// No point was read and not all four bounds of the extent were given.
    UndefinedExtent,
}

impl ConfigError {
    /// The stage at which this failure arises.
    pub fn stage(&self) -> (r: Stage)
        ensures
            r == Stage::Configuration,
    {
        Stage::Configuration
    }

    /// What went wrong, in words.
    pub fn message(&self) -> (r: &'static str)
        ensures
            r@ == "no points were read and the extent is not given in full"@,
    {
        "no points were read and the extent is not given in full"
    }
}

} // verus!
