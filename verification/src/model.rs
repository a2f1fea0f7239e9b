//! The data of one run: chapters as the probe reports them, the settings, and
//! the unit of work made of a chapter and the file it is written to.

use vstd::prelude::*;
use crate::decimal::{count_digits, digit_count};
use crate::text::str_eq;

verus! {

/// One segment of the source file, as the probing tool reports it.
///
/// `tags` is a list of bindings from key to value; where a key is bound more
/// than once the last binding counts.
#[derive(Debug)]
pub struct Chapter {
    pub id: i32,
    pub start: i32,
    pub start_time: String,
    pub end: i32,
    pub end_time: String,
    pub tags: Vec<(String, String)>,
}

/// What a chapter holds, with its tags as a map.
pub struct ChapterView {
    pub id: int,
    pub start: int,
    pub start_time: Seq<char>,
    pub end: int,
    pub end_time: Seq<char>,
    pub tags: Map<Seq<char>, Seq<char>>,
}

/// The map that a list of bindings stands for: each binding in turn is
/// entered into the map, so a later one replaces an earlier one of its key.
pub open spec fn tags_map(tags: Seq<(String, String)>) -> Map<Seq<char>, Seq<char>>
    decreases tags.len(),
{
    if tags.len() == 0 {
        Map::empty()
    } else {
        tags_map(tags.drop_last()).insert(tags.last().0@, tags.last().1@)
    }
}

/// Whether no key is bound twice.
pub open spec fn distinct_keys(tags: Seq<(String, String)>) -> bool {
    forall|i: int, j: int| 0 <= i < j < tags.len() ==> tags[i].0@ != tags[j].0@
}

/// Whether every binding of `a` is a binding of `b`.
pub open spec fn bindings_within(a: Seq<(String, String)>, b: Seq<(String, String)>) -> bool {
    forall|i: int|
        0 <= i < a.len() ==> exists|j: int|
            0 <= j < b.len() && (#[trigger] a[i]).0@ == (#[trigger] b[j]).0@ && a[i].1@ == b[j].1@
}

/// The map binds exactly the keys of the list.
pub proof fn lemma_tags_map_keys(tags: Seq<(String, String)>, key: Seq<char>)
    ensures
        tags_map(tags).contains_key(key) <==> exists|i: int|
            0 <= i < tags.len() && (#[trigger] tags[i]).0@ == key,
    decreases tags.len(),
{
    if tags.len() > 0 {
        let front = tags.drop_last();
        lemma_tags_map_keys(front, key);
        if tags_map(tags).contains_key(key) {
            if tags.last().0@ == key {
                assert(tags[tags.len() - 1].0@ == key);
            } else {
                let i = choose|i: int| 0 <= i < front.len() && (#[trigger] front[i]).0@ == key;
                assert(tags[i].0@ == key);
            }
        }
        if exists|i: int| 0 <= i < tags.len() && (#[trigger] tags[i]).0@ == key {
            let i = choose|i: int| 0 <= i < tags.len() && (#[trigger] tags[i]).0@ == key;
            if i < front.len() {
                assert(front[i].0@ == key);
            }
        }
    }
}

/// Where no key is bound twice, the map binds each key of the list to the
/// value that stands beside it.
pub proof fn lemma_tags_map_binds(tags: Seq<(String, String)>, i: int)
    requires
        distinct_keys(tags),
        0 <= i < tags.len(),
    ensures
        tags_map(tags).contains_key(tags[i].0@),
        tags_map(tags)[tags[i].0@] == tags[i].1@,
    decreases tags.len(),
{
    let front = tags.drop_last();
    if i < tags.len() - 1 {
        assert(distinct_keys(front)) by {
            assert forall|a: int, b: int| 0 <= a < b < front.len() implies front[a].0@
                != front[b].0@ by {
                assert(front[a] == tags[a] && front[b] == tags[b]);
            }
        }
        lemma_tags_map_binds(front, i);
        assert(front[i] == tags[i]);
        assert(tags[i].0@ != tags[tags.len() - 1].0@);
    }
}

/// Where no key is bound twice, the order of the bindings does not matter:
/// two lists with the same bindings stand for the same map.
pub proof fn lemma_tags_order_irrelevant(a: Seq<(String, String)>, b: Seq<(String, String)>)
    requires
        distinct_keys(a),
        distinct_keys(b),
        bindings_within(a, b),
        bindings_within(b, a),
    ensures
        tags_map(a) == tags_map(b),
{
    let ma = tags_map(a);
    let mb = tags_map(b);
    assert forall|key: Seq<char>| #[trigger] ma.dom().contains(key) implies mb.dom().contains(key)
        && ma[key] == mb[key] by {
        lemma_tags_map_keys(a, key);
        let i = choose|i: int| 0 <= i < a.len() && (#[trigger] a[i]).0@ == key;
        let j = choose|j: int|
            0 <= j < b.len() && (#[trigger] a[i]).0@ == (#[trigger] b[j]).0@ && a[i].1@ == b[j].1@;
        lemma_tags_map_binds(a, i);
        lemma_tags_map_binds(b, j);
    }
    assert forall|key: Seq<char>| #[trigger] mb.dom().contains(key) implies ma.dom().contains(
        key,
    ) by {
        lemma_tags_map_keys(b, key);
        let i = choose|i: int| 0 <= i < b.len() && (#[trigger] b[i]).0@ == key;
        let j = choose|j: int|
            0 <= j < a.len() && (#[trigger] b[i]).0@ == (#[trigger] a[j]).0@ && b[i].1@ == a[j].1@;
        lemma_tags_map_binds(a, j);
    }
    assert(ma.dom() =~= mb.dom());
    assert(tags_map(a) =~= tags_map(b));
}

impl ChapterView {
    /// The chapter's name: the value of the tag `title`, unless it is empty.
    pub open spec fn title(self) -> Option<Seq<char>> {
        if self.tags.contains_key("title"@) && self.tags["title"@].len() > 0 {
            Some(self.tags["title"@])
        } else {
            None
        }
    }
}

impl View for Chapter {
    type V = ChapterView;

    open spec fn view(&self) -> ChapterView {
        ChapterView {
            id: self.id as int,
            start: self.start as int,
            start_time: self.start_time@,
            end: self.end as int,
            end_time: self.end_time@,
            tags: tags_map(self.tags@),
        }
    }
}

/// What an optional string holds.
pub open spec fn opt_text(s: Option<&str>) -> Option<Seq<char>> {
    match s {
        Some(t) => Some(t@),
        None => None,
    }
}

impl Chapter {
    /// The value that the tags bind `key` to, if they bind it.
    pub fn tag(&self, key: &str) -> (value: Option<&str>)
        ensures
            opt_text(value) == (if self@.tags.contains_key(key@) {
                Some(self@.tags[key@])
            } else {
                None
            }),
    {
        let mut found: Option<&str> = None;
        let mut i: usize = 0;
        while i < self.tags.len()
            invariant
                i <= self.tags.len(),
                opt_text(found) == (if tags_map(self.tags@.take(i as int)).contains_key(key@) {
                    Some(tags_map(self.tags@.take(i as int))[key@])
                } else {
                    None
                }),
            decreases self.tags.len() - i,
        {
            proof {
                assert(self.tags@.take(i + 1).drop_last() =~= self.tags@.take(i as int));
            }
            if str_eq(self.tags[i].0.as_str(), key) {
                found = Some(self.tags[i].1.as_str());
            }
            i = i + 1;
        }
        proof {
            assert(self.tags@.take(i as int) =~= self.tags@);
        }
        found
    }

    /// The chapter's name: the value of the tag `title`, unless there is no
    /// such tag or its value is empty.
    pub fn title(&self) -> (title: Option<&str>)
        ensures
            opt_text(title) == self@.title(),
    {
        match self.tag("title") {
            Some(v) => {
                if v.is_empty() {
                    None
                } else {
                    Some(v)
                }
            },
            None => None,
        }
    }
}

/// What the probing tool reports of one file: its chapters, in its order.
#[derive(Debug)]
pub struct FFProbeOutput {
    pub chapters: Vec<Chapter>,
}

impl View for FFProbeOutput {
    type V = Seq<ChapterView>;

    open spec fn view(&self) -> Seq<ChapterView> {
        Seq::new(self.chapters@.len(), |i: int| self.chapters@[i]@)
    }
}

/// The settings of one run.
#[derive(Debug)]
pub struct Opts {
    /// Name the files after the chapters' titles.
    pub use_title_as_name: bool,
    /// Write the chapter's title into the file's metadata.
    pub use_title_in_meta: bool,
    /// The highest chapter id of the run.
    pub max_chapter_num: usize,
    /// The extension of the files written, where it is not the input's.
    pub output_extension: Option<String>,
}

/// What the settings hold.
pub struct OptsView {
    pub use_title_as_name: bool,
    pub use_title_in_meta: bool,
    pub max_chapter_num: nat,
    pub output_extension: Option<Seq<char>>,
}

impl OptsView {
    /// The width of the number that file names begin with: the number of
    /// decimal digits of the highest chapter id.
    pub open spec fn chapter_id_formatted_width(self) -> nat {
        digit_count(self.max_chapter_num)
    }
}

impl View for Opts {
    type V = OptsView;

    open spec fn view(&self) -> OptsView {
        OptsView {
            use_title_as_name: self.use_title_as_name,
            use_title_in_meta: self.use_title_in_meta,
            max_chapter_num: self.max_chapter_num as nat,
            output_extension: match self.output_extension {
                Some(e) => Some(e@),
                None => None,
            },
        }
    }
}

impl Opts {
    /// Settings for a run whose highest chapter id is `max_chapter_num`:
    /// titles are used for file names and metadata, and the files keep the
    /// input's extension.
    pub fn new(max_chapter_num: usize) -> (opts: Opts)
        ensures
            opts@ == (OptsView {
                use_title_as_name: true,
                use_title_in_meta: true,
                max_chapter_num: max_chapter_num as nat,
                output_extension: None,
            }),
    {
        Opts {
            use_title_as_name: true,
            use_title_in_meta: true,
            max_chapter_num,
            output_extension: None,
        }
    }

    /// Says whether the files are named after the chapters' titles.
    pub fn set_use_title_as_name(&mut self, val: bool) -> (opts: &Self)
        ensures
            final(self)@ == (OptsView { use_title_as_name: val, ..old(self)@ }),
            opts@ == final(self)@,
    {
        self.use_title_as_name = val;
        self
    }

    /// Says whether the chapter's title goes into the file's metadata.
    pub fn set_use_title_in_meta(&mut self, val: bool) -> (opts: &Self)
        ensures
            final(self)@ == (OptsView { use_title_in_meta: val, ..old(self)@ }),
            opts@ == final(self)@,
    {
        self.use_title_in_meta = val;
        self
    }

    /// Says whether the files are named after the chapters' titles.
    pub fn use_title_as_name(&mut self, val: bool) -> (opts: &Self)
        ensures
            final(self)@ == (OptsView { use_title_as_name: val, ..old(self)@ }),
            opts@ == final(self)@,
    {
        self.set_use_title_as_name(val)
    }

    /// The width of the number that file names begin with.
    pub fn chapter_id_formatted_width(&mut self) -> (width: usize)
        ensures
            *final(self) == *old(self),
            width == old(self)@.chapter_id_formatted_width(),
    {
        count_digits(self.max_chapter_num as u128)
    }
}

/// One chapter together with the file it comes from and the file it is
/// written to.
#[derive(Debug)]
pub struct WorkItem<'a> {
    pub input_file: &'a str,
    pub output_file: String,
    pub chapter: &'a Chapter,
}

/// What a unit of work holds.
pub struct WorkItemView {
    pub input_file: Seq<char>,
    pub output_file: Seq<char>,
    pub chapter: ChapterView,
}

impl<'a> View for WorkItem<'a> {
    type V = WorkItemView;

    open spec fn view(&self) -> WorkItemView {
        WorkItemView {
            input_file: self.input_file@,
            output_file: self.output_file@,
            chapter: self.chapter@,
        }
    }
}

} // verus!
