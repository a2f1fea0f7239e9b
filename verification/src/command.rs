//! The command lines of the probing and the transcoding tool.

use vstd::prelude::*;
use vstd::string::StringExecFns;
use crate::decimal::{decimal, format_decimal};
use crate::model::{ChapterView, Opts, OptsView, WorkItem, WorkItemView};
use crate::text::{starts_with, texts};

verus! {

/// A program and the arguments it is started with. Nothing is started here.
#[derive(Debug)]
pub struct CommandLine {
    pub program: String,
    pub args: Vec<String>,
}

/// What a command line holds.
pub struct CommandLineView {
    pub program: Seq<char>,
    pub args: Seq<Seq<char>>,
}

impl View for CommandLine {
    type V = CommandLineView;

    open spec fn view(&self) -> CommandLineView {
        CommandLineView { program: self.program@, args: texts(self.args@) }
    }
}

/// The arguments that make the probing tool list the chapters of `input` as
/// JSON.
pub open spec fn ffprobe_args(input: Seq<char>) -> Seq<Seq<char>> {
    seq!["-i"@, input, "-v"@, "error"@, "-print_format"@, "json"@, "-show_chapters"@]
}

/// The track tag of a chapter: its number, counted from one, and the number
/// of the last chapter of the run.
pub open spec fn track_tag(opts: OptsView, chap: ChapterView) -> Seq<char> {
    "track="@ + decimal(chap.id + 1) + "/"@ + decimal(opts.max_chapter_num as int + 1)
}

/// The title tag of a chapter with the given title.
pub open spec fn title_tag(title: Seq<char>) -> Seq<char> {
    "title="@ + title
}

/// The arguments that are the same for every chapter but for the paths, the
/// times and the track number: read the input without a terminal, drop its
/// chapter list and its video, copy the audio as it is, cut from the chapter's
/// start to its end, never write over a file that exists, and tag the track.
pub open spec fn ffmpeg_fixed_args(item: WorkItemView, opts: OptsView) -> Seq<Seq<char>> {
    seq![
        "-nostdin"@,
        "-i"@,
        item.input_file,
        "-v"@,
        "error"@,
        "-map_chapters"@,
        "-1"@,
        "-vn"@,
        "-c"@,
        "copy"@,
        "-ss"@,
        item.chapter.start_time,
        "-to"@,
        item.chapter.end_time,
        "-n"@,
        "-metadata"@,
        track_tag(opts, item.chapter),
    ]
}

/// The arguments that tag the file with the chapter's title: none unless
/// titles go into the metadata and the chapter has one.
pub open spec fn ffmpeg_title_args(item: WorkItemView, opts: OptsView) -> Seq<Seq<char>> {
    if opts.use_title_in_meta && item.chapter.title() is Some {
        seq!["-metadata"@, title_tag(item.chapter.title()->0)]
    } else {
        Seq::empty()
    }
}

/// The arguments of the transcoding tool for one unit of work; the file to
/// write comes last.
pub open spec fn ffmpeg_args(item: WorkItemView, opts: OptsView) -> Seq<Seq<char>> {
    ffmpeg_fixed_args(item, opts) + ffmpeg_title_args(item, opts) + seq![item.output_file]
}

/// The command that lists the chapters of `path`.
pub fn probe_command(path: &str) -> (cmd: CommandLine)
    ensures
        cmd@ == (CommandLineView { program: "ffprobe"@, args: ffprobe_args(path@) }),
{
    let mut args: Vec<String> = Vec::new();
    args.push(String::from_str("-i"));
    args.push(String::from_str(path));
    args.push(String::from_str("-v"));
    args.push(String::from_str("error"));
    args.push(String::from_str("-print_format"));
    args.push(String::from_str("json"));
    args.push(String::from_str("-show_chapters"));
    proof {
        assert(texts(args@) =~= ffprobe_args(path@));
    }
    CommandLine { program: String::from_str("ffprobe"), args }
}

impl<'a> WorkItem<'a> {
    /// The command that writes this chapter to its file.
    pub fn to_cmd(&self, opts: &Opts) -> (cmd: CommandLine)
        ensures
            cmd@ == (CommandLineView { program: "ffmpeg"@, args: ffmpeg_args(self@, opts@) }),
    {
        let mut args: Vec<String> = Vec::new();
        args.push(String::from_str("-nostdin"));
        args.push(String::from_str("-i"));
        args.push(String::from_str(self.input_file));
        args.push(String::from_str("-v"));
        args.push(String::from_str("error"));
        args.push(String::from_str("-map_chapters"));
        args.push(String::from_str("-1"));
        args.push(String::from_str("-vn"));
        args.push(String::from_str("-c"));
        args.push(String::from_str("copy"));
        args.push(String::from_str("-ss"));
        args.push(self.chapter.start_time.clone());
        args.push(String::from_str("-to"));
        args.push(self.chapter.end_time.clone());
        args.push(String::from_str("-n"));
        args.push(String::from_str("-metadata"));
        let mut track = String::from_str("track=");
        let number = format_decimal(self.chapter.id as i128 + 1);
        track.append(number.as_str());
        track.append("/");
        let total = format_decimal(opts.max_chapter_num as i128 + 1);
        track.append(total.as_str());
        args.push(track);
        if opts.use_title_in_meta {
            if let Some(title) = self.chapter.title() {
                args.push(String::from_str("-metadata"));
                let mut tag = String::from_str("title=");
                tag.append(title);
                args.push(tag);
            }
        }
        proof {
            assert(texts(args@) =~= ffmpeg_fixed_args(self@, opts@) + ffmpeg_title_args(
                self@,
                opts@,
            ));
        }
        args.push(self.output_file.clone());
        proof {
            assert(texts(args@) =~= ffmpeg_args(self@, opts@));
        }
        CommandLine { program: String::from_str("ffmpeg"), args }
    }
}

/// No title goes into the metadata where the settings say so, whether the
/// chapter has a title or not: the arguments are the fixed ones and the file to
/// write, and no `-metadata` among them is followed by a `title=` tag.
pub proof fn lemma_no_title_in_meta(item: WorkItemView, opts: OptsView)
    requires
        !opts.use_title_in_meta,
    ensures
        ffmpeg_args(item, opts) == ffmpeg_fixed_args(item, opts) + seq![item.output_file],
        forall|i: int|
            0 <= i < ffmpeg_args(item, opts).len() - 1 && #[trigger] ffmpeg_args(item, opts)[i]
                == "-metadata"@ ==> !starts_with(ffmpeg_args(item, opts)[i + 1], "title="@),
{
    let args = ffmpeg_args(item, opts);
    reveal_strlit("-nostdin");
    reveal_strlit("-i");
    reveal_strlit("-v");
    reveal_strlit("error");
    reveal_strlit("-map_chapters");
    reveal_strlit("-1");
    reveal_strlit("-vn");
    reveal_strlit("-c");
    reveal_strlit("copy");
    reveal_strlit("-ss");
    reveal_strlit("-to");
    reveal_strlit("-n");
    reveal_strlit("-metadata");
    reveal_strlit("track=");
    reveal_strlit("title=");
    assert forall|i: int| 0 <= i < args.len() - 1 && #[trigger] args[i] == "-metadata"@ implies !starts_with(
        args[i + 1],
        "title="@,
    ) by {
        if i == 15 {
            let tag = track_tag(opts, item.chapter);
            assert(tag[1] == 'r');
            if starts_with(tag, "title="@) {
                assert(tag.subrange(0, 6)[1] == "title="@[1]);
            }
        } else if i == 16 {
            assert(args[16][0] == 't');
        } else if i == 2 || i == 11 || i == 13 {
            assert(args[i + 1].len() < 6);
        } else {
            assert(args[i].len() != 9);
        }
    }
}

/// Every command refuses to write over a file that is already there: `-n` is
/// among its arguments, and the file to write is the last of them.
pub proof fn lemma_never_overwrites(item: WorkItemView, opts: OptsView)
    ensures
        ffmpeg_args(item, opts).contains("-n"@),
        ffmpeg_args(item, opts).last() == item.output_file,
{
    assert(ffmpeg_args(item, opts)[14] == "-n"@);
}

} // verus!
