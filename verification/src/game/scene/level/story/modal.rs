//! The schedule of the lines of a story modal, which appear one after the other
use vstd::prelude::*;

use crate::game::ui::iterative_text::text_byte_len;

verus! {

/// The time each character of a story line takes to appear, in milliseconds
pub const CHAR_ITERATION_MS: u64 = 32;

/// The time the lines take to appear, one after the other, in milliseconds: each line takes a
/// character time per byte, and one more
pub open spec fn lines_time(lines: Seq<Seq<char>>) -> nat
    decreases lines.len(),
{
    if lines.len() == 0 {
        0
    } else {
        (lines_time(lines.drop_last()) + CHAR_ITERATION_MS * (text_byte_len(lines.last()) + 1)) as nat
    }
}

/// The texts of the lines
pub open spec fn line_texts(lines: Seq<String>) -> Seq<Seq<char>> {
    lines.map_values(|line: String| line@)
}

/// The time of a prefix of the lines is no more than the time of all of them
proof fn lemma_lines_time_prefix(lines: Seq<Seq<char>>, count: int)
    requires
        0 <= count <= lines.len(),
    ensures
        lines_time(lines.take(count)) <= lines_time(lines),
    decreases lines.len(),
{
    if count < lines.len() {
        assert(lines.drop_last().take(count) =~= lines.take(count));
        lemma_lines_time_prefix(lines.drop_last(), count);
    } else {
        assert(lines.take(count) =~= lines);
    }
}

/// The delay before each line of a story modal starts to appear, in milliseconds: the time the
/// lines before it take
pub fn line_delays(lines: &Vec<String>) -> (delays: Vec<u64>)
    requires
        lines_time(line_texts(lines@)) <= u64::MAX,
    ensures
        delays@.len() == lines@.len(),
        forall|i: int|
            0 <= i < delays@.len() ==> delays@[i] == lines_time(
                #[trigger] line_texts(lines@).take(i),
            ),
{
    let ghost all = line_texts(lines@);
    let mut delays: Vec<u64> = Vec::new();
    let mut accumulated: u64 = 0;
    let mut i: usize = 0;
    assert(all.take(0) =~= Seq::<Seq<char>>::empty());
    while i < lines.len()
        invariant
            i <= lines@.len(),
            all == line_texts(lines@),
            lines_time(all) <= u64::MAX,
            accumulated == lines_time(all.take(i as int)),
            delays@.len() == i,
            forall|j: int| 0 <= j < i ==> delays@[j] == lines_time(#[trigger] all.take(j)),
        decreases lines.len() - i,
    {
        delays.push(accumulated);
        let bytes = lines[i].as_str().len();
        proof {
            assert(all.take(i + 1).drop_last() =~= all.take(i as int));
            assert(all.take(i + 1).last() == lines@[i as int]@);
            lemma_lines_time_prefix(all, i + 1);
        }
        accumulated = accumulated + CHAR_ITERATION_MS * (bytes as u64) + CHAR_ITERATION_MS;
        i = i + 1;
    }
    delays
}

} // verus!
