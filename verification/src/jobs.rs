//! One conversion unit: a source path paired with the output path derived
//! from it.

use vstd::prelude::*;

use crate::paths;

verus! {

/// One source-file-to-output-file conversion unit, immutable once created.
pub struct ConversionJob {
    pub source_path: String,
    pub derived_output_path: String,
}

/// The mathematical value of a `ConversionJob`.
pub struct JobView {
    pub source_path: Seq<char>,
    pub derived_output_path: Seq<char>,
}

impl View for ConversionJob {
    type V = JobView;

    open spec fn view(&self) -> JobView {
        JobView {
            source_path: self.source_path@,
            derived_output_path: self.derived_output_path@,
        }
    }
}

/// The job a source named `name` gives rise to: read from the input
/// directory, written to the output directory under the target extension.
pub open spec fn job_for(name: Seq<char>) -> JobView {
    JobView {
        source_path: paths::source_path_spec(name),
        derived_output_path: paths::output_path_spec(name),
    }
}

impl ConversionJob {
    /// Builds the job for a source file named `name`.
    pub fn make(name: &str) -> (j: ConversionJob)
        ensures
            j@ == job_for(name@),
    {
        ConversionJob {
            source_path: paths::join_path("mov", name),
            derived_output_path: paths::output_path_for(name),
        }
    }

    /// The name shown for this job: the file-name component of its source
    /// path.
    pub fn display_name<'a>(&'a self) -> (r: &'a str)
        ensures
            r@ == paths::file_name_in(self@.source_path),
    {
        paths::file_name_of(self.source_path.as_str())
    }
}

} // verus!
