use ffmpeg_split::model::{Chapter, Opts};
use ffmpeg_split::text::str_eq;

fn chapter(tags: &[(&str, &str)]) -> Chapter {
    Chapter {
        id: 7,
        start: 0,
        start_time: "0.000000".to_string(),
        end: 1000,
        end_time: "1.000000".to_string(),
        tags: tags.iter().map(|(k, v)| (k.to_string(), v.to_string())).collect(),
    }
}

#[test]
fn title_is_the_title_tag() {
    assert_eq!(chapter(&[("title", "Intro")]).title(), Some("Intro"));
    assert_eq!(chapter(&[("artist", "A"), ("title", "Intro"), ("album", "B")]).title(), Some("Intro"));
}

#[test]
fn title_is_missing_without_tag_or_with_empty_tag() {
    assert_eq!(chapter(&[]).title(), None);
    assert_eq!(chapter(&[("title", "")]).title(), None);
    assert_eq!(chapter(&[("Title", "Intro")]).title(), None);
    assert_eq!(chapter(&[("titl", "Intro"), ("titles", "Intro")]).title(), None);
}

#[test]
fn last_binding_of_a_key_counts() {
    let chap = chapter(&[("title", "first"), ("x", "y"), ("title", "second")]);
    assert_eq!(chap.title(), Some("second"));
    assert_eq!(chap.tag("x"), Some("y"));
    assert_eq!(chap.tag("z"), None);
    let emptied = chapter(&[("title", "first"), ("title", "")]);
    assert_eq!(emptied.tag("title"), Some(""));
    assert_eq!(emptied.title(), None);
}

#[test]
fn new_opts_use_titles_and_keep_the_extension() {
    let opts = Opts::new(17);
    assert!(opts.use_title_as_name);
    assert!(opts.use_title_in_meta);
    assert_eq!(opts.max_chapter_num, 17);
    assert_eq!(opts.output_extension, None);
}

#[test]
fn setters_change_one_setting() {
    let mut opts = Opts::new(3);
    assert!(!opts.set_use_title_as_name(false).use_title_as_name);
    assert!(opts.use_title_in_meta);
    assert!(!opts.set_use_title_in_meta(false).use_title_in_meta);
    assert!(!opts.use_title_as_name);
    assert!(opts.use_title_as_name(true).use_title_as_name);
    assert!(!opts.use_title_in_meta);
    assert_eq!(opts.max_chapter_num, 3);
    assert_eq!(opts.output_extension, None);
}

#[test]
fn strings_are_equal_where_their_characters_are() {
    assert!(str_eq("", ""));
    assert!(str_eq("title", "title"));
    assert!(str_eq("章節 ü", "章節 ü"));
    assert!(!str_eq("title", "titlE"));
    assert!(!str_eq("title", "titles"));
    assert!(!str_eq("title", ""));
    assert!(!str_eq("é", "e\u{301}"));
}

#[test]
fn order_of_tags_does_not_matter_without_repeated_keys() {
    let bindings = [("title", "Intro"), ("artist", "A"), ("album", "B"), ("date", "")];
    let forward = chapter(&bindings);
    let mut reversed = bindings;
    reversed.reverse();
    let backward = chapter(&reversed);
    let mut rotated = bindings;
    rotated.rotate_left(2);
    let around = chapter(&rotated);
    for key in ["title", "artist", "album", "date", "genre", ""] {
        assert_eq!(forward.tag(key), backward.tag(key));
        assert_eq!(forward.tag(key), around.tag(key));
    }
    assert_eq!(backward.title(), Some("Intro"));
    assert_eq!(around.title(), Some("Intro"));
}
