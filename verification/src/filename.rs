//! The file that a chapter is written to.

use vstd::prelude::*;
use vstd::string::StringExecFns;
use crate::decimal::{
    count_digits, decimal, format_decimal, is_number_char, lemma_digit_count_bounds,
    lemma_digit_count_monotonic, lemma_zero_padded_injective, lemma_zero_padded_shape, pow10,
    push_zero_padded, zero_padded,
};
use crate::model::{Chapter, ChapterView, Opts, OptsView, WorkItem, WorkItemView, opt_text};
use crate::paths::{extension, extension_of, file_stem, file_stem_of, join, joined_path};

verus! {

/// The number that the file name begins with: the chapter's id plus one, in
/// as many digits as the highest chapter id has, zeros in front.
pub open spec fn outfile_prefix(opts: OptsView, chap: ChapterView) -> Seq<char> {
    zero_padded(chap.id + 1, opts.chapter_id_formatted_width())
}

/// The name proper: the chapter's title where titles are used and the chapter
/// has one, else the stem of the input file.
pub open spec fn outfile_base(stem: Seq<char>, opts: OptsView, chap: ChapterView) -> Seq<char> {
    if opts.use_title_as_name && chap.title() is Some {
        chap.title()->0
    } else {
        stem
    }
}

/// The extension: the one set in `opts`, else the input file's.
pub open spec fn outfile_extension(input_extension: Option<Seq<char>>, opts: OptsView) -> Option<
    Seq<char>,
> {
    match opts.output_extension {
        Some(e) => Some(e),
        None => input_extension,
    }
}

/// The file name `<prefix> - <base>.<extension>`; there is none where no
/// extension is set and the input file has none.
pub open spec fn spec_outfile_name(
    stem: Seq<char>,
    input_extension: Option<Seq<char>>,
    opts: OptsView,
    chap: ChapterView,
) -> Option<Seq<char>> {
    match outfile_extension(input_extension, opts) {
        Some(ext) => Some(
            outfile_prefix(opts, chap) + " - "@ + outfile_base(stem, opts, chap) + "."@ + ext,
        ),
        None => None,
    }
}

/// The path of the file that `chap` is written to: its file name joined onto
/// `out_dir`. There is none where `input` has no file stem, or no extension
/// while none is set in `opts`.
pub open spec fn outfile(
    input: Seq<char>,
    out_dir: Seq<char>,
    opts: OptsView,
    chap: ChapterView,
) -> Option<Seq<char>> {
    match file_stem_of(input) {
        Some(stem) => match spec_outfile_name(stem, extension_of(input), opts, chap) {
            Some(name) => Some(joined_path(out_dir, name)),
            None => None,
        },
        None => None,
    }
}

/// The name of the file that `chap` is written to, for an input file with the
/// given stem and extension.
pub fn outfile_name(stem: &str, input_extension: Option<&str>, opts: &Opts, chap: &Chapter) -> (name:
    Option<String>)
    ensures
        match name {
            Some(n) => spec_outfile_name(stem@, opt_text(input_extension), opts@, chap@) == Some(
                n@,
            ),
            None => spec_outfile_name(stem@, opt_text(input_extension), opts@, chap@) is None,
        },
{
    let ext: &str = match &opts.output_extension {
        Some(e) => e.as_str(),
        None => match input_extension {
            Some(e) => e,
            None => {
                return None;
            },
        },
    };
    let base: &str = if opts.use_title_as_name {
        match chap.title() {
            Some(t) => t,
            None => stem,
        }
    } else {
        stem
    };
    let width = count_digits(opts.max_chapter_num as u128);
    let mut name = String::new();
    push_zero_padded(&mut name, chap.id as i128 + 1, width);
    name.append(" - ");
    name.append(base);
    name.append(".");
    name.append(ext);
    proof {
        assert(name@ =~= outfile_prefix(opts@, chap@) + " - "@ + outfile_base(stem@, opts@, chap@)
            + "."@ + ext@);
    }
    Some(name)
}

/// The path of the file that `chap` is written to. It is for an `input`
/// with a file stem, and with an extension unless one is set in `opts`;
/// `try_compute_outfile` asks nothing of `input`.
pub fn compute_outfile(input: &str, out_dir: &str, opts: &Opts, chap: &Chapter) -> (path: String)
    requires
        outfile(input@, out_dir@, opts@, chap@) is Some,
    ensures
        outfile(input@, out_dir@, opts@, chap@) == Some(path@),
{
    let stem = file_stem(input).unwrap();
    let ext = extension(input);
    let ext_str: Option<&str> = match &ext {
        Some(e) => Some(e.as_str()),
        None => None,
    };
    let name = outfile_name(stem.as_str(), ext_str, opts, chap).unwrap();
    join(out_dir, name.as_str())
}

/// The path of the file that `chap` is written to, or nothing where `input`
/// has no file stem, or no extension while none is set in `opts`.
pub fn try_compute_outfile(input: &str, out_dir: &str, opts: &Opts, chap: &Chapter) -> (path: Option<
    String,
>)
    ensures
        match path {
            Some(p) => outfile(input@, out_dir@, opts@, chap@) == Some(p@),
            None => outfile(input@, out_dir@, opts@, chap@) is None,
        },
{
    if file_stem(input).is_some() && (opts.output_extension.is_some() || extension(
        input,
    ).is_some()) {
        Some(compute_outfile(input, out_dir, opts, chap))
    } else {
        None
    }
}

/// The message that is due when titles are used for file names and `chap` has
/// none, so that its file is named after the input file instead.
pub open spec fn fallback_warning(opts: OptsView, chap: ChapterView) -> Option<Seq<char>> {
    if opts.use_title_as_name && chap.title() is None {
        Some(
            "warning: chapter "@ + decimal(chap.id)
                + " has no title or title is empty, using input filename instead"@,
        )
    } else {
        None
    }
}

/// The warning to show for `chap`, if one is due.
pub fn title_fallback_warning(opts: &Opts, chap: &Chapter) -> (warning: Option<String>)
    ensures
        match warning {
            Some(w) => fallback_warning(opts@, chap@) == Some(w@),
            None => fallback_warning(opts@, chap@) is None,
        },
{
    if opts.use_title_as_name && chap.title().is_none() {
        let mut w = String::from_str("warning: chapter ");
        let id = format_decimal(chap.id as i128);
        w.append(id.as_str());
        w.append(" has no title or title is empty, using input filename instead");
        Some(w)
    } else {
        None
    }
}

/// The unit of work for `chap`: the chapter, the file it is cut from and the
/// file it is written to. It is for an `input_file` with a file stem, and with
/// an extension unless one is set in `opts`; `make_workitems` asks nothing of
/// the input path.
pub fn make_workitem<'a>(
    input_file: &'a str,
    output_dir: &'a str,
    opts: &Opts,
    chap: &'a Chapter,
) -> (item: WorkItem<'a>)
    requires
        outfile(input_file@, output_dir@, opts@, chap@) is Some,
    ensures
        item@ == (WorkItemView {
            input_file: input_file@,
            output_file: outfile(input_file@, output_dir@, opts@, chap@)->0,
            chapter: chap@,
        }),
{
    WorkItem {
        input_file,
        output_file: compute_outfile(input_file, output_dir, opts, chap),
        chapter: chap,
    }
}

/// Where titles are used for file names and the chapter's title is not empty,
/// the file is named after the title, letter for letter: the name is the
/// number, ` - `, the title, a dot and the extension.
pub proof fn lemma_title_names_file(
    input: Seq<char>,
    out_dir: Seq<char>,
    opts: OptsView,
    chap: ChapterView,
)
    requires
        opts.use_title_as_name,
        chap.tags.contains_key("title"@),
        chap.tags["title"@].len() > 0,
    ensures
        forall|stem: Seq<char>| #[trigger] outfile_base(stem, opts, chap) == chap.tags["title"@],
        outfile(input, out_dir, opts, chap) matches Some(path) ==> path == joined_path(
            out_dir,
            outfile_prefix(opts, chap) + " - "@ + chap.tags["title"@] + "."@ + outfile_extension(
                extension_of(input),
                opts,
            )->0,
        ),
{
}

/// Where titles are used for file names and the chapter has no title, or an
/// empty one, the file is named after the input file's stem, and a warning is
/// due.
pub proof fn lemma_missing_title_falls_back(
    input: Seq<char>,
    out_dir: Seq<char>,
    opts: OptsView,
    chap: ChapterView,
)
    requires
        opts.use_title_as_name,
        !chap.tags.contains_key("title"@) || chap.tags["title"@].len() == 0,
    ensures
        forall|stem: Seq<char>| #[trigger] outfile_base(stem, opts, chap) == stem,
        fallback_warning(opts, chap) is Some,
        outfile(input, out_dir, opts, chap) matches Some(path) ==> path == joined_path(
            out_dir,
            outfile_prefix(opts, chap) + " - "@ + file_stem_of(input)->0 + "."@ + outfile_extension(
                extension_of(input),
                opts,
            )->0,
        ),
{
}

/// The width of the number in front is the least `w` with
/// `max_chapter_num + 1 <= 10^w`, which is the logarithm of
/// `max_chapter_num + 1` to base ten, rounded up. (For a highest id of zero the
/// width is one, the logarithm zero; the number in front is the same.)
pub proof fn lemma_width_is_ceil_log10(opts: OptsView)
    requires
        opts.max_chapter_num >= 1,
    ensures
        opts.max_chapter_num + 1 <= pow10(opts.chapter_id_formatted_width()),
        pow10((opts.chapter_id_formatted_width() - 1) as nat) < opts.max_chapter_num + 1,
{
    lemma_digit_count_bounds(opts.max_chapter_num);
}

/// The number in front has the same width for every chapter of a run, namely
/// `chapter_id_formatted_width`, as long as the chapter's number fits in that
/// many characters.
pub proof fn lemma_prefix_width_constant(opts: OptsView, chap: ChapterView)
    requires
        decimal(chap.id + 1).len() <= opts.chapter_id_formatted_width(),
    ensures
        outfile_prefix(opts, chap).len() == opts.chapter_id_formatted_width(),
{
    lemma_zero_padded_shape(chap.id + 1, opts.chapter_id_formatted_width());
}

/// The number of every chapter whose id lies below the highest id of the run
/// fits in `chapter_id_formatted_width` characters.
pub proof fn lemma_prefix_fits_below_max(opts: OptsView, chap: ChapterView)
    requires
        0 <= chap.id < opts.max_chapter_num,
    ensures
        decimal(chap.id + 1).len() <= opts.chapter_id_formatted_width(),
        outfile_prefix(opts, chap).len() == opts.chapter_id_formatted_width(),
{
    lemma_zero_padded_shape(chap.id + 1, 0);
    lemma_digit_count_monotonic((chap.id + 1) as nat, opts.max_chapter_num);
    lemma_prefix_width_constant(opts, chap);
}

/// Chapters with different ids are written to files with different names,
/// whatever their titles: the number in front tells them apart.
pub proof fn lemma_distinct_ids_distinct_names(
    stem: Seq<char>,
    input_extension: Option<Seq<char>>,
    opts: OptsView,
    a: ChapterView,
    b: ChapterView,
)
    requires
        a.id != b.id,
        outfile_extension(input_extension, opts) is Some,
    ensures
        spec_outfile_name(stem, input_extension, opts, a) is Some,
        spec_outfile_name(stem, input_extension, opts, b) is Some,
        spec_outfile_name(stem, input_extension, opts, a) != spec_outfile_name(
            stem,
            input_extension,
            opts,
            b,
        ),
{
    let w = opts.chapter_id_formatted_width();
    let pa = outfile_prefix(opts, a);
    let pb = outfile_prefix(opts, b);
    let na = spec_outfile_name(stem, input_extension, opts, a)->0;
    let nb = spec_outfile_name(stem, input_extension, opts, b)->0;
    reveal_strlit(" - ");
    lemma_zero_padded_shape(a.id + 1, w);
    lemma_zero_padded_shape(b.id + 1, w);
    lemma_zero_padded_injective(a.id + 1, w, b.id + 1, w);
    assert(na.len() > pa.len() && na[pa.len() as int] == ' ');
    assert(nb.len() > pb.len() && nb[pb.len() as int] == ' ');
    assert forall|i: int| 0 <= i < pa.len() implies na[i] == pa[i] && is_number_char(na[i]) by {
        assert(is_number_char(pa[i]));
    }
    assert forall|i: int| 0 <= i < pb.len() implies nb[i] == pb[i] && is_number_char(nb[i]) by {
        assert(is_number_char(pb[i]));
    }
    if na == nb {
        if pa.len() < pb.len() {
            assert(is_number_char(nb[pa.len() as int]));
        } else if pb.len() < pa.len() {
            assert(is_number_char(na[pb.len() as int]));
        } else {
            assert(pa =~= pb);
        }
    }
}

} // verus!
