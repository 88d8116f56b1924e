//! The running text buffer: segments joined by a delimiter, under a byte
//! ceiling.
//!
//! Two regimes fill it. Ingestion takes a text whole or not at all; analysis
//! takes as many leading characters of a text as still fit.

use vstd::prelude::*;
use crate::text::{fit, fitting, lemma_fitting, lemma_utf8_len_concat, push_all, utf8_len};

verus! {

/// What stands between two segments of the buffer.
pub open spec fn delimiter() -> Seq<char> {
    seq!['\n', '\n', '-', '-', '-', '\n', '\n']
}

/// The delimiter takes seven bytes.
pub proof fn lemma_delimiter_len()
    ensures
        utf8_len(delimiter()) == 7,
{
    reveal_with_fuel(utf8_len, 8);
}

/// The buffer with one more segment: the delimiter comes only between two
/// segments that are not empty, and an empty segment changes nothing.
pub open spec fn joined_with(buffer: Seq<char>, segment: Seq<char>) -> Seq<char> {
    if segment.len() == 0 {
        buffer
    } else if buffer.len() == 0 {
        segment
    } else {
        buffer + delimiter() + segment
    }
}

/// Ingestion: the text is joined to the buffer if the result stays within
/// `cap` bytes, and left out otherwise.
pub open spec fn whole_step(buffer: Seq<char>, text: Seq<char>, cap: nat) -> Seq<char> {
    if utf8_len(joined_with(buffer, text)) <= cap {
        joined_with(buffer, text)
    } else {
        buffer
    }
}

/// The bytes that a new segment may take in a buffer capped at `cap`, the
/// delimiter before it counted.
pub open spec fn room(buffer: Seq<char>, cap: nat) -> nat {
    let used = utf8_len(buffer) + if buffer.len() > 0 {
        utf8_len(delimiter())
    } else {
        0
    };
    if used >= cap {
        0
    } else {
        (cap - used) as nat
    }
}

/// Analysis: the leading characters of the text that fit in the room left
/// are joined to the buffer.
pub open spec fn partial_step(buffer: Seq<char>, text: Seq<char>, cap: nat) -> Seq<char> {
    joined_with(buffer, text.take(fitting(text, room(buffer, cap)) as int))
}

/// The byte length of a joined buffer.
pub proof fn lemma_joined_len(buffer: Seq<char>, segment: Seq<char>)
    ensures
        utf8_len(joined_with(buffer, segment)) == if segment.len() == 0 {
            utf8_len(buffer)
        } else if buffer.len() == 0 {
            utf8_len(segment)
        } else {
            utf8_len(buffer) + 7 + utf8_len(segment)
        },
{
    lemma_delimiter_len();
    lemma_utf8_len_concat(buffer, delimiter());
    lemma_utf8_len_concat(buffer + delimiter(), segment);
}

/// A buffer within its ceiling stays within it, in both regimes.
pub proof fn lemma_steps_capped(buffer: Seq<char>, text: Seq<char>, cap: nat)
    requires
        utf8_len(buffer) <= cap,
    ensures
        utf8_len(whole_step(buffer, text, cap)) <= cap,
        utf8_len(partial_step(buffer, text, cap)) <= cap,
{
    let segment = text.take(fitting(text, room(buffer, cap)) as int);
    lemma_fitting(text, room(buffer, cap));
    lemma_joined_len(buffer, segment);
    lemma_delimiter_len();
    if segment.len() > 0 {
        crate::text::lemma_utf8_len_bounds(segment);
    }
}

fn push_delimiter(buffer: &mut Vec<char>)
    ensures
        final(buffer)@ == old(buffer)@ + delimiter(),
{
    buffer.push('\n');
    buffer.push('\n');
    buffer.push('-');
    buffer.push('-');
    buffer.push('-');
    buffer.push('\n');
    buffer.push('\n');
}

/// Joins `text` to `buffer` if the whole of it fits under `cap` bytes, and
/// tells whether it did.
pub fn push_whole(buffer: &mut Vec<char>, text: &Vec<char>, cap: usize) -> (added: bool)
    ensures
        final(buffer)@ == whole_step(old(buffer)@, text@, cap as nat),
        added == (utf8_len(joined_with(old(buffer)@, text@)) <= cap),
{
    proof {
        lemma_joined_len(buffer@, text@);
        lemma_fitting(buffer@, cap as nat);
    }
    let (held, used) = fit(buffer, cap);
    if text.len() == 0 {
        return held == buffer.len();
    }
    if held < buffer.len() {
        proof {
            crate::text::lemma_utf8_len_bounds(text@);
        }
        return false;
    }
    assert(buffer@.take(held as int) == buffer@);
    let extra: usize = if buffer.len() > 0 {
        7
    } else {
        0
    };
    if cap - used < extra {
        return false;
    }
    proof {
        lemma_fitting(text@, (cap - used - extra) as nat);
    }
    let (taken, _) = fit(text, cap - used - extra);
    if taken < text.len() {
        return false;
    }
    if extra > 0 {
        push_delimiter(buffer);
    }
    push_all(buffer, text);
    true
}

/// Joins to `buffer` the leading characters of `text` that fit under `cap`
/// bytes.
pub fn push_partial(buffer: &mut Vec<char>, text: &Vec<char>, cap: usize)
    ensures
        final(buffer)@ == partial_step(old(buffer)@, text@, cap as nat),
{
    proof {
        lemma_delimiter_len();
        lemma_fitting(buffer@, cap as nat);
        lemma_fitting(text@, 0);
    }
    let (held, used) = fit(buffer, cap);
    let extra: usize = if buffer.len() > 0 {
        7
    } else {
        0
    };
    if held < buffer.len() || cap - used <= extra {
        proof {
            assert(room(buffer@, cap as nat) == 0) by {
                if held == buffer.len() {
                    assert(buffer@.take(held as int) == buffer@);
                }
            }
            if text.len() > 0 {
                crate::text::lemma_utf8_len_bounds(text@.take(1));
            }
        }
        return ;
    }
    assert(buffer@.take(held as int) == buffer@);
    proof {
        lemma_fitting(text@, (cap - used - extra) as nat);
    }
    let (taken, _) = fit(text, cap - used - extra);
    if taken == 0 {
        return ;
    }
    if extra > 0 {
        push_delimiter(buffer);
    }
    let mut i: usize = 0;
    let ghost base = buffer@;
    while i < taken
        invariant
            i <= taken <= text.len(),
            buffer@ == base + text@.take(i as int),
        decreases taken - i,
    {
        buffer.push(text[i]);
        i += 1;
    }
}

} // verus!
