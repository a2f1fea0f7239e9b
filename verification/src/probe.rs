//! Reading what the probing tool wrote.

use vstd::prelude::*;
use vstd::utf8::{decode_utf8, valid_utf8};
use crate::error::SplitError;
use crate::model::{ChapterView, FFProbeOutput};

verus! {

/// Calls `String::from_utf8`, which hands the bytes back as a string where
/// they are valid UTF-8 and refuses them where they are not. The contract says
/// so over vstd's model of UTF-8: there is a string exactly for valid bytes,
/// and it holds the characters that the bytes encode.
#[verifier::external_body]
fn string_from_utf8(bytes: Vec<u8>) -> (text: Option<String>)
    ensures
        text is Some <==> valid_utf8(bytes@),
        text matches Some(s) ==> s@ == decode_utf8(bytes@),
{
    String::from_utf8(bytes).ok()
}

/// The text that the probing tool wrote to its standard output, or
/// `Encoding` where the bytes are not UTF-8.
pub fn decode_probe_output(stdout: Vec<u8>) -> (text: Result<String, SplitError>)
    ensures
        match text {
            Ok(s) => valid_utf8(stdout@) && s@ == decode_utf8(stdout@),
            Err(e) => !valid_utf8(stdout@) && e@ == crate::error::SplitErrorView::Encoding,
        },
{
    match string_from_utf8(stdout) {
        Some(s) => Ok(s),
        None => Err(SplitError::Encoding),
    }
}

/// The highest chapter id of a list of chapters. Ids count from zero, so the
/// highest id of no chapters, or of chapters with negative ids, is zero.
pub open spec fn max_chapter_index(chapters: Seq<ChapterView>) -> nat
    decreases chapters.len(),
{
    if chapters.len() == 0 {
        0
    } else {
        let before = max_chapter_index(chapters.drop_last());
        if chapters.last().id > before {
            chapters.last().id as nat
        } else {
            before
        }
    }
}

/// No chapter's id lies above the highest id, and the highest id is the id of
/// one of the chapters unless it is zero.
pub proof fn lemma_max_chapter_index(chapters: Seq<ChapterView>)
    ensures
        forall|i: int| 0 <= i < chapters.len() ==> (#[trigger] chapters[i]).id <= max_chapter_index(
            chapters,
        ),
        max_chapter_index(chapters) == 0 || exists|i: int|
            0 <= i < chapters.len() && (#[trigger] chapters[i]).id == max_chapter_index(chapters),
    decreases chapters.len(),
{
    if chapters.len() > 0 {
        let front = chapters.drop_last();
        lemma_max_chapter_index(front);
        assert forall|i: int| 0 <= i < chapters.len() implies (#[trigger] chapters[i]).id
            <= max_chapter_index(chapters) by {
            if i < front.len() {
                assert(front[i] == chapters[i]);
            }
        }
        if max_chapter_index(chapters) != 0 {
            if chapters.last().id > max_chapter_index(front) {
                assert(chapters[chapters.len() - 1].id == max_chapter_index(chapters));
            } else {
                let i = choose|i: int|
                    0 <= i < front.len() && (#[trigger] front[i]).id == max_chapter_index(front);
                assert(chapters[i] == front[i]);
            }
        }
    }
}

impl FFProbeOutput {
    /// The highest chapter id of the list.
    pub fn max_chapter_index(&self) -> (max: usize)
        ensures
            max == max_chapter_index(self@),
    {
        let mut max: usize = 0;
        let mut i: usize = 0;
        while i < self.chapters.len()
            invariant
                i <= self.chapters.len(),
                self@.len() == self.chapters.len(),
                max == max_chapter_index(self@.take(i as int)),
            decreases self.chapters.len() - i,
        {
            proof {
                assert(self@.take(i + 1).drop_last() =~= self@.take(i as int));
                assert(self@.take(i + 1).last() == self.chapters@[i as int]@);
            }
            let id = self.chapters[i].id;
            if id > 0 && id as usize > max {
                max = id as usize;
            }
            i = i + 1;
        }
        proof {
            assert(self@.take(i as int) =~= self@);
        }
        max
    }
}

} // verus!
