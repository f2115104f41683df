//! The score board: how many zundamon are in play, and the most there ever were.
use vstd::prelude::*;
use vstd::string::*;
use crate::decimal::{decimal, to_decimal};

verus! {

/// The most zundamon seen in play at once so far.
#[derive(Clone, Copy, Debug)]
pub struct History {
    pub count_max: usize,
}

/// The board text for `count` zundamon in play and a record of `count_max`.
pub open spec fn board_text(count: nat, count_max: nat) -> Seq<char> {
    decimal(count) + seq!['/'] + decimal(count_max)
}

impl History {
    /// A record of zero.
    pub fn new() -> (h: Self)
        ensures
            h.count_max == 0,
    {
        History { count_max: 0 }
    }
}

/// One frame of the board: `balls` zundamon balls and `fullbodies` converted
/// zundamon are in play. The record is raised to the current count when it is
/// beaten, and the text shows the count and the record.
pub fn system(history: &mut History, balls: usize, fullbodies: usize) -> (text: String)
    requires
        balls + fullbodies <= usize::MAX,
    ensures
        final(history).count_max == if old(history).count_max < balls + fullbodies {
            (balls + fullbodies) as usize
        } else {
            old(history).count_max
        },
        text@ == board_text((balls + fullbodies) as nat, final(history).count_max as nat),
{
    let len = balls + fullbodies;
    if history.count_max < len {
        history.count_max = len;
    }
    let mut text = to_decimal(len);
    text.append("/");
    proof {
        reveal_strlit("/");
    }
    let record = to_decimal(history.count_max);
    text.append(record.as_str());
    text
}

/// The record after frames with these counts in play.
pub open spec fn record_after(count_max: int, counts: Seq<int>) -> int
    decreases counts.len(),
{
    if counts.len() == 0 {
        count_max
    } else {
        let c = counts.last();
        let m = record_after(count_max, counts.drop_last());
        if m < c { c } else { m }
    }
}

/// The record never drops: after any frames it is at least its start and at
/// least every count seen, and it is one of those values.
pub proof fn lemma_record_is_max(count_max: int, counts: Seq<int>)
    ensures
        record_after(count_max, counts) >= count_max,
        forall|i: int| 0 <= i < counts.len() ==> record_after(count_max, counts) >= #[trigger] counts[i],
        record_after(count_max, counts) == count_max
            || exists|i: int| 0 <= i < counts.len() && record_after(count_max, counts) == counts[i],
    decreases counts.len(),
{
    if counts.len() > 0 {
        let rest = counts.drop_last();
        lemma_record_is_max(count_max, rest);
        assert forall|i: int| 0 <= i < counts.len() implies record_after(count_max, counts) >= #[trigger] counts[i] by {
            if i < counts.len() - 1 {
                assert(counts[i] == rest[i]);
            }
        }
        if record_after(count_max, counts) != count_max {
            if record_after(count_max, counts) == counts.last() {
                assert(counts[counts.len() - 1] == counts.last());
            } else {
                let i = choose|i: int| 0 <= i < rest.len() && record_after(count_max, rest) == rest[i];
                assert(counts[i] == rest[i]);
            }
        }
    }
}

} // verus!
