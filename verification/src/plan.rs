//! From the probe's list of chapters to the work of a run.

use vstd::prelude::*;
use vstd::string::StringExecFns;
use crate::decimal::{count_digits, push_zero_padded, zero_padded};
use crate::error::{SplitError, SplitErrorView};
use crate::filename::{make_workitem, outfile, outfile_extension};
use crate::model::{Chapter, ChapterView, FFProbeOutput, Opts, OptsView, WorkItem, WorkItemView};
use crate::paths::{clean_path, cleaned_path, extension, extension_of, file_stem, file_stem_of};
use crate::probe::max_chapter_index;

verus! {

/// The input file and the output directory of a run, as cleaned paths.
#[derive(Debug)]
pub struct Locations {
    pub input_file: String,
    pub output_dir: String,
}

impl Locations {
    /// Cleans the two paths that the user gave.
    pub fn new(input_file: &str, output_dir: &str) -> (locations: Locations)
        ensures
            locations.input_file@ == cleaned_path(input_file@),
            locations.output_dir@ == cleaned_path(output_dir@),
    {
        Locations { input_file: clean_path(input_file), output_dir: clean_path(output_dir) }
    }
}

impl Opts {
    /// The settings for the chapters that the probe found: `NoChapters`
    /// where it found none, else the settings of `Opts::new` for the highest
    /// chapter id of the list.
    pub fn for_probe(probe: &FFProbeOutput) -> (settings: Result<Opts, SplitError>)
        ensures
            match settings {
                Ok(opts) => probe@.len() > 0 && opts@ == (OptsView {
                    use_title_as_name: true,
                    use_title_in_meta: true,
                    max_chapter_num: max_chapter_index(probe@),
                    output_extension: None,
                }),
                Err(e) => probe@.len() == 0 && e@ == SplitErrorView::NoChapters,
            },
    {
        if probe.chapters.len() == 0 {
            Err(SplitError::NoChapters)
        } else {
            Ok(Opts::new(probe.max_chapter_index()))
        }
    }
}

/// What a list of units of work holds.
pub open spec fn work_view(items: Seq<WorkItem>) -> Seq<WorkItemView> {
    Seq::new(items.len(), |i: int| items[i]@)
}

/// The work of a run: one unit for each chapter, in the probe's order, each
/// with the file that `outfile` gives it. Without chapters there is no work
/// but `NoChapters`; with an input path that has no file stem, or no extension
/// while none is set, `InputFileName`.
pub open spec fn work_items(
    input_file: Seq<char>,
    output_dir: Seq<char>,
    opts: OptsView,
    chapters: Seq<ChapterView>,
) -> Result<Seq<WorkItemView>, SplitErrorView> {
    if chapters.len() == 0 {
        Err(SplitErrorView::NoChapters)
    } else if file_stem_of(input_file) is None || outfile_extension(
        extension_of(input_file),
        opts,
    ) is None {
        Err(SplitErrorView::InputFileName)
    } else {
        Ok(
            Seq::new(
                chapters.len(),
                |i: int|
                    WorkItemView {
                        input_file,
                        output_file: outfile(input_file, output_dir, opts, chapters[i])->0,
                        chapter: chapters[i],
                    },
            ),
        )
    }
}

/// Makes the work of a run.
pub fn make_workitems<'a>(
    input_file: &'a str,
    output_dir: &'a str,
    opts: &Opts,
    probe: &'a FFProbeOutput,
) -> (work: Result<Vec<WorkItem<'a>>, SplitError>)
    ensures
        match work {
            Ok(items) => work_items(input_file@, output_dir@, opts@, probe@) == Ok::<
                Seq<WorkItemView>,
                SplitErrorView,
            >(work_view(items@)),
            Err(e) => work_items(input_file@, output_dir@, opts@, probe@) == Err::<
                Seq<WorkItemView>,
                SplitErrorView,
            >(e@),
        },
        work matches Ok(items) ==> items.len() == probe.chapters.len() && forall|i: int|
            0 <= i < items.len() ==> (#[trigger] items[i])@ == (WorkItemView {
                input_file: input_file@,
                output_file: outfile(input_file@, output_dir@, opts@, probe.chapters[i]@)->0,
                chapter: probe.chapters[i]@,
            }),
{
    if probe.chapters.len() == 0 {
        return Err(SplitError::NoChapters);
    }
    if file_stem(input_file).is_none() || (opts.output_extension.is_none() && extension(
        input_file,
    ).is_none()) {
        return Err(SplitError::InputFileName);
    }
    let mut items: Vec<WorkItem<'a>> = Vec::new();
    let mut i: usize = 0;
    while i < probe.chapters.len()
        invariant
            i <= probe.chapters.len(),
            probe@.len() == probe.chapters.len(),
            file_stem_of(input_file@) is Some,
            outfile_extension(extension_of(input_file@), opts@) is Some,
            items.len() == i,
            forall|j: int|
                0 <= j < i ==> (#[trigger] items[j])@ == (WorkItemView {
                    input_file: input_file@,
                    output_file: outfile(input_file@, output_dir@, opts@, probe@[j])->0,
                    chapter: probe@[j],
                }),
        decreases probe.chapters.len() - i,
    {
        let item = make_workitem(input_file, output_dir, opts, &probe.chapters[i]);
        items.push(item);
        i = i + 1;
    }
    proof {
        assert(work_view(items@) =~= work_items(input_file@, output_dir@, opts@, probe@)->Ok_0);
    }
    Ok(items)
}

/// The line that lists a chapter: its id in as many digits as the highest id
/// has, zeros in front, then its title in quotes, or a note that it has none.
pub open spec fn listing_line(chap: ChapterView, opts: OptsView) -> Seq<char> {
    zero_padded(chap.id, opts.chapter_id_formatted_width()) + " - \""@ + (if chap.tags.contains_key(
        "title"@,
    ) {
        chap.tags["title"@]
    } else {
        "<unknown chapter title>"@
    }) + "\""@
}

/// The line that lists `chap`.
pub fn chapter_listing_line(chap: &Chapter, opts: &Opts) -> (line: String)
    ensures
        line@ == listing_line(chap@, opts@),
{
    let title: &str = match chap.tag("title") {
        Some(t) => t,
        None => "<unknown chapter title>",
    };
    let mut line = String::new();
    push_zero_padded(&mut line, chap.id as i128, count_digits(opts.max_chapter_num as u128));
    line.append(" - \"");
    line.append(title);
    line.append("\"");
    line
}

} // verus!
