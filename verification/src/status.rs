//! What the file system was found to hold, and how an output stands to its inputs.

use vstd::prelude::*;

verus! {

/// The moment at which a file was last modified, in nanoseconds since the
/// Unix epoch; negative for a moment before it. Only the order of two moments
/// matters here.
#[derive(Clone, Copy, Debug, PartialEq, Eq, Structural)]
pub struct Timestamp {
    pub nanos: i128,
}

/// The facts about one template spec's files on which the freshness
/// of its output depends, as one look at the file system found them.
///
/// A modification time that could not be read holds the failure instead.
pub struct Snapshot {
    /// Whether the output path exists.
    pub output_exists: bool,
    /// When the output was last modified.
    pub output_modified: Result<Timestamp, std::io::Error>,
    /// When the data file was last modified.
    pub data_modified: Result<Timestamp, std::io::Error>,
    /// When the template file was last modified.
    pub template_modified: Result<Timestamp, std::io::Error>,
}

/// How an output stands to the files it is generated from.
pub enum OutputStatus {
    /// The output is at least as recent as both of its inputs.
    UpToDate,
    /// An output path is named, and nothing exists there.
    FileMissing,
    /// The output is older than the template or than the data.
    OutOfDate,
    /// No output path is named, so there is nothing to compare.
    Forced,
    /// A modification time could not be read; the failure is carried along.
    CannotDetermine(std::io::Error),
}

impl OutputStatus {
    /// Whether an output of this status has to be generated: always, unless it
    /// is known to be up to date.
    pub open spec fn calls_for_build(self) -> bool {
        !(self is UpToDate)
    }
}

/// Whether an output modified at `output` is older than one of its inputs.
/// An output exactly as old as an input is not.
pub open spec fn is_stale(output: Timestamp, data: Timestamp, template: Timestamp) -> bool {
    output.nanos < template.nanos || output.nanos < data.nanos
}

impl Snapshot {
    /// The status that these facts give an output. `named` says whether an
    /// output path is named at all.
    ///
    /// The modification times are consulted in the order output, data,
    /// template, and the first that could not be read decides.
    pub open spec fn status(self, named: bool) -> OutputStatus {
        if !named {
            OutputStatus::Forced
        } else if !self.output_exists {
            OutputStatus::FileMissing
        } else {
            match (self.output_modified, self.data_modified, self.template_modified) {
                (Err(failure), _, _) => OutputStatus::CannotDetermine(failure),
                (Ok(_), Err(failure), _) => OutputStatus::CannotDetermine(failure),
                (Ok(_), Ok(_), Err(failure)) => OutputStatus::CannotDetermine(failure),
                (Ok(output), Ok(data), Ok(template)) => if is_stale(output, data, template) {
                    OutputStatus::OutOfDate
                } else {
                    OutputStatus::UpToDate
                },
            }
        }
    }
}

} // verus!
