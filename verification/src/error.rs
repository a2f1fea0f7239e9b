//! What can end a run early, and how it is reported.

use vstd::prelude::*;
use vstd::string::StringExecFns;
use crate::decimal::{decimal, push_zero_padded};

verus! {

/// A job that did not succeed: which chapter it was for, counted from zero in
/// the order of the probe's list, and what the transcoding tool or the system
/// said.
#[derive(Debug)]
pub struct FailedJob {
    pub index: usize,
    pub detail: String,
}

/// What a failed job holds.
pub struct FailedJobView {
    pub index: nat,
    pub detail: Seq<char>,
}

impl View for FailedJob {
    type V = FailedJobView;

    open spec fn view(&self) -> FailedJobView {
        FailedJobView { index: self.index as nat, detail: self.detail@ }
    }
}

/// What the failed jobs of a run hold, in the order in which they were
/// recorded.
pub open spec fn failures_view(failures: Seq<FailedJob>) -> Seq<FailedJobView> {
    Seq::new(failures.len(), |i: int| failures[i]@)
}

/// Why a run cannot go on, or did not succeed.
#[derive(Debug)]
pub enum SplitError {
    /// The probing tool could not be started; the text says why.
    ProbeInvocation(String),
    /// The probing tool's output is not UTF-8.
    Encoding,
    /// The probing tool's output is not the JSON that was expected; the text
    /// is the parser's diagnostic.
    Parse(String),
    /// The input file holds no chapters.
    NoChapters,
    /// The input path has no file stem, or no extension while none is set.
    InputFileName,
    /// The output directory could not be created; the text says why.
    DirectoryCreation(String),
    /// At least one job failed.
    JobExecution(Vec<FailedJob>),
}

/// What an error holds.
pub enum SplitErrorView {
    ProbeInvocation(Seq<char>),
    Encoding,
    Parse(Seq<char>),
    NoChapters,
    InputFileName,
    DirectoryCreation(Seq<char>),
    JobExecution(Seq<FailedJobView>),
}

impl View for SplitError {
    type V = SplitErrorView;

    open spec fn view(&self) -> SplitErrorView {
        match self {
            SplitError::ProbeInvocation(why) => SplitErrorView::ProbeInvocation(why@),
            SplitError::Encoding => SplitErrorView::Encoding,
            SplitError::Parse(why) => SplitErrorView::Parse(why@),
            SplitError::NoChapters => SplitErrorView::NoChapters,
            SplitError::InputFileName => SplitErrorView::InputFileName,
            SplitError::DirectoryCreation(why) => SplitErrorView::DirectoryCreation(why@),
            SplitError::JobExecution(failures) => SplitErrorView::JobExecution(
                failures_view(failures@),
            ),
        }
    }
}

/// The lines that report failed jobs, one for each: the chapter's number,
/// counted from one, and what was said.
pub open spec fn failure_lines(failures: Seq<FailedJobView>) -> Seq<char>
    decreases failures.len(),
{
    if failures.len() == 0 {
        Seq::empty()
    } else {
        failure_lines(failures.drop_last()) + "\nchapter "@ + decimal(failures.last().index as int + 1)
            + ": "@ + failures.last().detail
    }
}

impl SplitErrorView {
    /// The message for the error stream.
    pub open spec fn message(self) -> Seq<char> {
        match self {
            SplitErrorView::ProbeInvocation(why) => "Calling ffprobe failed: "@ + why,
            SplitErrorView::Encoding => "Output of ffprobe is not valid UTF-8"@,
            SplitErrorView::Parse(why) => "Could not parse JSON: "@ + why,
            SplitErrorView::NoChapters =>
                "Input file contains no chapter metadata. Cannot continue."@,
            SplitErrorView::InputFileName =>
                "Input file needs a name with an extension, or an output extension"@,
            SplitErrorView::DirectoryCreation(why) => "Failed to create directory: "@ + why,
            SplitErrorView::JobExecution(failures) => "Calling ffmpeg failed:"@ + failure_lines(
                failures,
            ),
        }
    }

    /// The status that the process ends with: never zero, and one of its own
    /// for a file without chapters.
    pub open spec fn exit_code(self) -> int {
        match self {
            SplitErrorView::NoChapters => 2,
            _ => 1,
        }
    }
}

impl SplitError {
    /// The message for the error stream.
    pub fn message(&self) -> (text: String)
        ensures
            text@ == self@.message(),
    {
        match self {
            SplitError::ProbeInvocation(why) => {
                let mut text = String::from_str("Calling ffprobe failed: ");
                text.append(why.as_str());
                text
            },
            SplitError::Encoding => String::from_str("Output of ffprobe is not valid UTF-8"),
            SplitError::Parse(why) => {
                let mut text = String::from_str("Could not parse JSON: ");
                text.append(why.as_str());
                text
            },
            SplitError::NoChapters => String::from_str(
                "Input file contains no chapter metadata. Cannot continue.",
            ),
            SplitError::InputFileName => String::from_str(
                "Input file needs a name with an extension, or an output extension",
            ),
            SplitError::DirectoryCreation(why) => {
                let mut text = String::from_str("Failed to create directory: ");
                text.append(why.as_str());
                text
            },
            SplitError::JobExecution(failures) => {
                let mut text = String::from_str("Calling ffmpeg failed:");
                let mut i: usize = 0;
                proof {
                    assert(text@ =~= "Calling ffmpeg failed:"@ + failure_lines(
                        failures_view(failures@).take(0),
                    ));
                }
                while i < failures.len()
                    invariant
                        i <= failures.len(),
                        text@ == "Calling ffmpeg failed:"@ + failure_lines(
                            failures_view(failures@).take(i as int),
                        ),
                    decreases failures.len() - i,
                {
                    let ghost before = text@;
                    text.append("\nchapter ");
                    push_zero_padded(&mut text, failures[i].index as i128 + 1, 0);
                    text.append(": ");
                    text.append(failures[i].detail.as_str());
                    proof {
                        let all = failures_view(failures@);
                        assert(all.take(i + 1).drop_last() =~= all.take(i as int));
                        assert(all.take(i + 1).last() == failures@[i as int]@);
                        assert(text@ =~= "Calling ffmpeg failed:"@ + failure_lines(
                            all.take(i + 1),
                        ));
                    }
                    i = i + 1;
                }
                proof {
                    assert(failures_view(failures@).take(i as int) =~= failures_view(failures@));
                }
                text
            },
        }
    }

    /// The status that the process ends with.
    pub fn exit_code(&self) -> (code: i32)
        ensures
            code == self@.exit_code(),
            code != 0,
    {
        match self {
            SplitError::NoChapters => 2,
            _ => 1,
        }
    }
}

} // verus!
