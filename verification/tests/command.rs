use ffmpeg_split::command::probe_command;
use ffmpeg_split::filename::make_workitem;
use ffmpeg_split::model::{Chapter, Opts, WorkItem};

fn chapter(id: i32, start: &str, end: &str, tags: &[(&str, &str)]) -> Chapter {
    Chapter {
        id,
        start: 0,
        start_time: start.to_string(),
        end: 1,
        end_time: end.to_string(),
        tags: tags.iter().map(|(k, v)| (k.to_string(), v.to_string())).collect(),
    }
}

fn has_title_tag(args: &[String]) -> bool {
    args.windows(2).any(|w| w[0] == "-metadata" && w[1].starts_with("title="))
}

#[test]
fn probe_command_lists_chapters_as_json() {
    let cmd = probe_command("in/path/baz.m4a");
    assert_eq!(cmd.program, "ffprobe");
    assert_eq!(
        cmd.args,
        vec!["-i", "in/path/baz.m4a", "-v", "error", "-print_format", "json", "-show_chapters"]
    );
}

#[test]
fn command_for_a_titled_chapter() {
    let opts = Opts::new(2);
    let chap = chapter(0, "0.000000", "12.500000", &[("title", "My Fancy Title")]);
    let item = make_workitem("in/path/baz.m4a", "out/path", &opts, &chap);
    let cmd = item.to_cmd(&opts);
    assert_eq!(cmd.program, "ffmpeg");
    assert_eq!(
        cmd.args,
        vec![
            "-nostdin",
            "-i",
            "in/path/baz.m4a",
            "-v",
            "error",
            "-map_chapters",
            "-1",
            "-vn",
            "-c",
            "copy",
            "-ss",
            "0.000000",
            "-to",
            "12.500000",
            "-n",
            "-metadata",
            "track=1/3",
            "-metadata",
            "title=My Fancy Title",
            "out/path/1 - My Fancy Title.m4a",
        ]
    );
}

#[test]
fn command_for_an_untitled_chapter() {
    let opts = Opts::new(11);
    let chap = chapter(4, "100.5", "200.25", &[]);
    let item = make_workitem("book.m4b", "out", &opts, &chap);
    let cmd = item.to_cmd(&opts);
    assert_eq!(
        cmd.args,
        vec![
            "-nostdin",
            "-i",
            "book.m4b",
            "-v",
            "error",
            "-map_chapters",
            "-1",
            "-vn",
            "-c",
            "copy",
            "-ss",
            "100.5",
            "-to",
            "200.25",
            "-n",
            "-metadata",
            "track=5/12",
            "out/05 - book.m4b",
        ]
    );
}

#[test]
fn no_title_in_metadata_where_it_is_switched_off() {
    let mut opts = Opts::new(2);
    opts.set_use_title_in_meta(false);
    let titled = chapter(0, "0", "1", &[("title", "My Fancy Title")]);
    let untitled = chapter(1, "1", "2", &[]);
    let empty = chapter(2, "2", "3", &[("title", "")]);
    for chap in [&titled, &untitled, &empty] {
        let item = make_workitem("in/path/baz.m4a", "out/path", &opts, chap);
        let cmd = item.to_cmd(&opts);
        assert_eq!(cmd.args.len(), 18);
        assert!(!has_title_tag(&cmd.args));
        assert_eq!(cmd.args.iter().filter(|a| *a == "-metadata").count(), 1);
    }
    // not even where the paths and times look like one
    let odd = chapter(0, "-metadata", "-metadata", &[("title", "x")]);
    let item = WorkItem { input_file: "title=a", output_file: "title=b".to_string(), chapter: &odd };
    assert!(!has_title_tag(&item.to_cmd(&opts).args));
}

#[test]
fn title_in_metadata_only_for_a_title_that_is_not_empty() {
    let opts = Opts::new(2);
    let titled = chapter(0, "0", "1", &[("title", "One")]);
    let empty = chapter(2, "2", "3", &[("title", "")]);
    let item = make_workitem("in/path/baz.m4a", "out/path", &opts, &titled);
    assert!(has_title_tag(&item.to_cmd(&opts).args));
    let item = make_workitem("in/path/baz.m4a", "out/path", &opts, &empty);
    assert!(!has_title_tag(&item.to_cmd(&opts).args));
}

#[test]
fn title_in_metadata_does_not_depend_on_the_file_name() {
    let mut opts = Opts::new(2);
    opts.set_use_title_as_name(false);
    let titled = chapter(0, "0", "1", &[("title", "One")]);
    let item = make_workitem("in/path/baz.m4a", "out/path", &opts, &titled);
    let cmd = item.to_cmd(&opts);
    assert_eq!(cmd.args[18], "title=One");
    assert_eq!(cmd.args[19], "out/path/1 - baz.m4a");
}

#[test]
fn commands_never_overwrite() {
    for use_meta in [false, true] {
        let mut opts = Opts::new(2);
        opts.set_use_title_in_meta(use_meta);
        for tags in [vec![], vec![("title", "T")]] {
            let chap = chapter(1, "1", "2", &tags);
            let item = make_workitem("in/path/baz.m4a", "out/path", &opts, &chap);
            let cmd = item.to_cmd(&opts);
            assert!(cmd.args.iter().any(|a| a == "-n"));
            assert!(!cmd.args.iter().any(|a| a == "-y"));
            assert_eq!(cmd.args.last(), Some(&item.output_file));
        }
    }
}

#[test]
fn track_counts_from_one_up_to_the_highest_id_plus_one() {
    let opts = Opts::new(usize::MAX);
    let chap = chapter(i32::MAX, "0", "1", &[]);
    let item = WorkItem { input_file: "a.b", output_file: "c".to_string(), chapter: &chap };
    let cmd = item.to_cmd(&opts);
    let expected = format!("track=2147483648/{}", usize::MAX as u128 + 1);
    assert_eq!(cmd.args[16], expected);
    let opts = Opts::new(0);
    let chap = chapter(0, "0", "1", &[]);
    let item = WorkItem { input_file: "a.b", output_file: "c".to_string(), chapter: &chap };
    assert_eq!(item.to_cmd(&opts).args[16], "track=1/1");
}
