//! Where the rows go.
//!
//! The destination is named by a path, with `-` for the standard output, and
//! a setting says whether the file is compressed. Opening and writing is left
//! to the caller; this module decides what is to be opened.

use crate::text::ends_with;
use crate::text::is_suffix;
use crate::text::same_text;
use vstd::prelude::*;

verus! {

/// Whether the output file is compressed.
#[derive(Clone, Copy, Debug, PartialEq, Eq, Structural)]
pub enum Compression {
    /// Never.
    Off,
    /// Where the path ends in `.gz`.
    Auto,
    /// Always.
    Gzip,
}

/// What is opened for the rows.
#[derive(Clone, Copy, Debug, PartialEq, Eq, Structural)]
pub enum Sink {
    /// The standard output, as it is.
    Stdout,
    /// A file that is written through a gzip encoder.
    GzipFile,
    /// A file that is written as it is.
    PlainFile,
}

impl Compression {
    /// The setting that a word chooses, if it chooses one.
    pub open spec fn named(name: Seq<char>) -> Option<Compression> {
        if name == "none"@ {
            Some(Compression::Off)
        } else if name == "auto"@ {
            Some(Compression::Auto)
        } else if name == "gzip"@ {
            Some(Compression::Gzip)
        } else {
            None
        }
    }

    /// Selects a setting by its name.
    pub fn from_name(name: &str) -> (r: Option<Compression>)
        ensures
            r == Compression::named(name@),
    {
        if same_text(name, "none") {
            Some(Compression::Off)
        } else if same_text(name, "auto") {
            Some(Compression::Auto)
        } else if same_text(name, "gzip") {
            Some(Compression::Gzip)
        } else {
            None
        }
    }
}

impl Default for Compression {
    /// The setting that is used where none is chosen.
    fn default() -> (r: Compression)
        ensures
            r == Compression::Auto,
    {
        Compression::Auto
    }
}

/// The sink for a path and a setting: the standard output for `-`, whatever
/// the setting; else a compressed file where compression is asked for, or
/// left to the path and the path ends in `.gz`; else a plain file.
pub open spec fn sink_for(path: Seq<char>, compression: Compression) -> Sink {
    if path == "-"@ {
        Sink::Stdout
    } else if compression is Gzip || (compression is Auto && is_suffix(".gz"@, path)) {
        Sink::GzipFile
    } else {
        Sink::PlainFile
    }
}

/// Decides what is opened for the rows.
pub fn choose_sink(path: &str, compression: Compression) -> (r: Sink)
    ensures
        r == sink_for(path@, compression),
{
    if same_text(path, "-") {
        Sink::Stdout
    } else {
        match compression {
            Compression::Gzip => Sink::GzipFile,
            Compression::Off => Sink::PlainFile,
            Compression::Auto => if ends_with(path, ".gz") {
                Sink::GzipFile
            } else {
                Sink::PlainFile
            },
        }
    }
}

} // verus!
