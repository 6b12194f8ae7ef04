use crate::lines::{
    candidates, first_line_len, lemma_first_line_len, lemma_first_line_len_at, pending,
    terminated, TERMINATOR,
};
use crate::pattern::line_matches;
use crate::stream_filter::{
    chunk_leftover, chunk_lines, chunk_output, filtered_item, filtered_stream, leftover_after,
    matching_lines,
};
use regex::Regex;
use vstd::prelude::*;

verus! {

/// The chunks joined into one text.
pub open spec fn concat(chunks: Seq<Seq<u8>>) -> Seq<u8>
    decreases chunks.len(),
{
    if chunks.len() == 0 {
        Seq::empty()
    } else {
        concat(chunks.drop_last()) + chunks.last()
    }
}

/// A stream in which every chunk arrives and no error does.
pub open spec fn ok_items<E>(chunks: Seq<Seq<u8>>) -> Seq<Result<Seq<u8>, E>> {
    Seq::new(chunks.len(), |i: int| Ok(chunks[i]))
}

/// All bytes that a stream of outgoing items carries, errors left out.
pub open spec fn emitted_text<E>(outputs: Seq<Result<Seq<u8>, E>>) -> Seq<u8>
    decreases outputs.len(),
{
    if outputs.len() == 0 {
        Seq::empty()
    } else {
        match outputs.last() {
            Ok(bytes) => emitted_text(outputs.drop_last()) + bytes,
            Err(_) => emitted_text(outputs.drop_last()),
        }
    }
}

/// There is always a candidate.
pub proof fn lemma_candidates_nonempty(data: Seq<u8>)
    ensures
        candidates(data).len() >= 1,
    decreases data.len(),
{
    lemma_first_line_len(data);
    let n = first_line_len(data) as int;
    if n < data.len() {
        lemma_candidates_nonempty(data.skip(n + 1));
    }
}

/// No candidate holds a terminator.
pub proof fn lemma_candidates_hold_no_terminator(data: Seq<u8>)
    ensures
        forall|i: int, j: int|
            0 <= i < candidates(data).len() && 0 <= j < candidates(data)[i].len()
                ==> candidates(data)[i][j] != TERMINATOR,
    decreases data.len(),
{
    lemma_first_line_len(data);
    let n = first_line_len(data) as int;
    if n < data.len() {
        let rest = data.skip(n + 1);
        lemma_candidates_hold_no_terminator(rest);
        assert forall|i: int, j: int|
            0 <= i < candidates(data).len() && 0 <= j < candidates(data)[i].len()
            implies candidates(data)[i][j] != TERMINATOR by {
            if i > 0 {
                assert(candidates(data)[i] == candidates(rest)[i - 1]);
            }
        }
    }
}

/// Splitting a text that continues: the complete lines of the first part
/// stay as they are, and the unfinished line goes on into the second part.
pub proof fn lemma_candidates_continue(a: Seq<u8>, b: Seq<u8>)
    ensures
        candidates(a + b) == candidates(a).drop_last() + candidates(pending(a) + b),
    decreases a.len(),
{
    lemma_first_line_len(a);
    let n = first_line_len(a) as int;
    if n < a.len() {
        let rest = a.skip(n + 1);
        lemma_first_line_len_at(a + b, n);
        assert((a + b).take(n) == a.take(n));
        assert((a + b).skip(n + 1) == rest + b);
        lemma_candidates_continue(rest, b);
        lemma_candidates_nonempty(rest);
    }
}

/// A single line written out: the line and its terminator.
pub proof fn lemma_terminated_single(line: Seq<u8>)
    ensures
        terminated(seq![line]) == line.push(TERMINATOR),
{
    let none = Seq::<Seq<u8>>::empty();
    assert(seq![line].drop_last() == none);
    assert(terminated(none) == Seq::<u8>::empty());
}

/// The candidates of a text are its split at the terminators: written out
/// with a terminator after each but the last, they give the text back.
pub proof fn lemma_candidates_rejoin(data: Seq<u8>)
    ensures
        terminated(candidates(data).drop_last()) + pending(data) == data,
    decreases data.len(),
{
    let none = Seq::<Seq<u8>>::empty();
    lemma_first_line_len(data);
    let n = first_line_len(data) as int;
    if n >= data.len() {
        assert(candidates(data).drop_last() == none);
    } else {
        let first = data.take(n);
        let rest = data.skip(n + 1);
        lemma_candidates_rejoin(rest);
        lemma_candidates_nonempty(rest);
        assert(candidates(data).drop_last() == seq![first] + candidates(rest).drop_last());
        lemma_terminated_add(seq![first], candidates(rest).drop_last());
        lemma_terminated_single(first);
        assert(first.push(TERMINATOR) + rest == data);
    }
}

/// A text that ends with a terminator leaves no unfinished line.
pub proof fn lemma_pending_after_terminator(text: Seq<u8>)
    requires
        text.len() > 0,
        text.last() == TERMINATOR,
    ensures
        pending(text) == Seq::<u8>::empty(),
{
    let empty = Seq::<u8>::empty();
    let front = text.drop_last();
    let held = pending(front);
    assert(text == front + seq![TERMINATOR]);
    lemma_candidates_continue(front, seq![TERMINATOR]);
    lemma_candidates_nonempty(front);
    lemma_candidates_hold_no_terminator(front);
    let joined = held + seq![TERMINATOR];
    lemma_first_line_len_at(joined, held.len() as int);
    assert(joined.skip(held.len() as int + 1) == empty);
    assert(candidates(empty) == seq![empty]);
}

/// Lines without a terminator, written out and split again, come back as
/// they were, with nothing left unfinished after them.
pub proof fn lemma_terminated_splits_back(lines: Seq<Seq<u8>>)
    requires
        forall|i: int, j: int|
            0 <= i < lines.len() && 0 <= j < lines[i].len() ==> lines[i][j] != TERMINATOR,
    ensures
        candidates(terminated(lines)) == lines.push(Seq::<u8>::empty()),
    decreases lines.len(),
{
    let empty = Seq::<u8>::empty();
    if lines.len() > 0 {
        let front = lines.drop_last();
        let line = lines.last();
        lemma_terminated_splits_back(front);
        let written = terminated(front);
        let more = line.push(TERMINATOR);
        lemma_candidates_continue(written, more);
        assert(pending(written) == empty);
        lemma_first_line_len_at(more, line.len() as int);
        assert(more.take(line.len() as int) == line);
        assert(more.skip(line.len() as int + 1) == empty);
        assert(candidates(empty) == seq![empty]);
    }
}

/// The matching lines are lines of the list they were taken from.
pub proof fn lemma_matching_lines_are_lines(pattern: Regex, lines: Seq<Seq<u8>>)
    ensures
        forall|i: int|
            0 <= i < matching_lines(pattern, lines).len() ==> lines.contains(
                #[trigger] matching_lines(pattern, lines)[i],
            ) && line_matches(pattern, matching_lines(pattern, lines)[i]),
    decreases lines.len(),
{
    if lines.len() > 0 {
        let front = lines.drop_last();
        lemma_matching_lines_are_lines(pattern, front);
        assert forall|i: int| 0 <= i < matching_lines(pattern, lines).len() implies lines.contains(
            #[trigger] matching_lines(pattern, lines)[i],
        ) && line_matches(pattern, matching_lines(pattern, lines)[i]) by {
            let kept = matching_lines(pattern, lines)[i];
            if i < matching_lines(pattern, front).len() {
                assert(front.contains(kept));
            }
        }
    }
}

/// What a buffer emits, split again at the terminators, is the list of its
/// candidates that match: none left out, none twice, none out of order, and
/// nothing unfinished after them.
pub proof fn lemma_output_splits_back(pattern: Regex, combined: Seq<u8>)
    ensures
        candidates(chunk_output(pattern, combined)) == chunk_lines(pattern, combined).push(
            Seq::<u8>::empty(),
        ),
{
    let lines = chunk_lines(pattern, combined);
    lemma_matching_lines_are_lines(pattern, candidates(combined));
    lemma_candidates_hold_no_terminator(combined);
    lemma_terminated_splits_back(lines);
}

/// The matching lines of a single line: the line itself or nothing.
pub proof fn lemma_matching_lines_single(pattern: Regex, line: Seq<u8>)
    ensures
        matching_lines(pattern, seq![line]) == if line_matches(pattern, line) {
            seq![line]
        } else {
            Seq::<Seq<u8>>::empty()
        },
{
    let none = Seq::<Seq<u8>>::empty();
    assert(seq![line].drop_last() == none);
    assert(matching_lines(pattern, none) == none);
}

/// The matching lines of two lists, one after the other.
pub proof fn lemma_matching_lines_add(pattern: Regex, x: Seq<Seq<u8>>, y: Seq<Seq<u8>>)
    ensures
        matching_lines(pattern, x + y) == matching_lines(pattern, x) + matching_lines(pattern, y),
    decreases y.len(),
{
    if y.len() > 0 {
        assert((x + y).drop_last() == x + y.drop_last());
        lemma_matching_lines_add(pattern, x, y.drop_last());
    }
}

/// Two lists of lines written out, one after the other.
pub proof fn lemma_terminated_add(x: Seq<Seq<u8>>, y: Seq<Seq<u8>>)
    ensures
        terminated(x + y) == terminated(x) + terminated(y),
    decreases y.len(),
{
    if y.len() == 0 {
        assert(x + y == x);
    } else {
        assert((x + y).drop_last() == x + y.drop_last());
        lemma_terminated_add(x, y.drop_last());
    }
}

/// Filtering a text that continues, when what was held back at the cut is
/// handed on: the lines emitted for the longer text are those emitted up to
/// the cut, then those of the rest with the leftover in front. It takes that
/// a line emitted at the cut before its terminator arrived was complete: the
/// rest is empty or begins with the terminator, and the empty line does not
/// match.
pub proof fn lemma_filter_continues(pattern: Regex, text: Seq<u8>, rest: Seq<u8>)
    requires
        line_matches(pattern, pending(text)) ==> !line_matches(pattern, Seq::empty()) && (
        rest.len() == 0 || rest[0] == TERMINATOR),
    ensures
        chunk_lines(pattern, text + rest) == chunk_lines(pattern, text) + chunk_lines(
            pattern,
            chunk_leftover(pattern, text) + rest,
        ),
        chunk_output(pattern, text + rest) == chunk_output(pattern, text) + chunk_output(
            pattern,
            chunk_leftover(pattern, text) + rest,
        ),
        chunk_leftover(pattern, text + rest) == chunk_leftover(
            pattern,
            chunk_leftover(pattern, text) + rest,
        ),
{
    let empty = Seq::<u8>::empty();
    let held = pending(text);
    let complete = candidates(text).drop_last();
    lemma_candidates_nonempty(text);
    lemma_candidates_continue(text, rest);
    lemma_matching_lines_add(pattern, complete, seq![held]);
    lemma_matching_lines_add(pattern, complete, candidates(held + rest));
    lemma_candidates_nonempty(held + rest);
    lemma_matching_lines_single(pattern, held);
    if line_matches(pattern, held) {
        assert(empty + rest == rest);
        lemma_matching_lines_single(pattern, empty);
        if rest.len() > 0 {
            let tail = rest.skip(1);
            lemma_candidates_hold_no_terminator(text);
            lemma_first_line_len_at(rest, 0);
            assert(rest.take(0) == empty);
            lemma_first_line_len_at(held + rest, held.len() as int);
            assert((held + rest).take(held.len() as int) == held);
            assert((held + rest).skip(held.len() as int + 1) == tail);
            lemma_candidates_nonempty(tail);
            lemma_matching_lines_add(pattern, seq![held], candidates(tail));
            lemma_matching_lines_add(pattern, seq![empty], candidates(tail));
        }
    }
    lemma_terminated_add(
        chunk_lines(pattern, text),
        chunk_lines(pattern, chunk_leftover(pattern, text) + rest),
    );
}

/// The last outgoing item of a stream, and the items ahead of it.
pub proof fn lemma_filtered_stream_last<E>(pattern: Regex, items: Seq<Result<Seq<u8>, E>>)
    requires
        items.len() > 0,
    ensures
        filtered_stream(pattern, items).drop_last() == filtered_stream(
            pattern,
            items.drop_last(),
        ),
        filtered_stream(pattern, items).last() == filtered_item(
            pattern,
            leftover_after(pattern, items.drop_last()),
            items.last(),
        ),
{
    let front = items.drop_last();
    assert forall|k: int| 0 <= k < front.len() implies #[trigger] filtered_stream(
        pattern,
        items,
    )[k] == filtered_stream(pattern, front)[k] by {
        assert(items.take(k) == front.take(k));
    }
}

/// Whether cutting a text into `chunks` leaves what the filter emits as it
/// is. The filter emits a matching last candidate at once, so a cut changes
/// the outcome wherever the line cut off matches and yet goes on, and
/// wherever the empty line matches and a cut makes one. Hence: where the
/// unfinished line at a cut matches, nothing or the terminator follows, and
/// the empty line does not match; and a stream without chunks takes that the
/// empty line does not match.
pub open spec fn splits_cleanly(pattern: Regex, chunks: Seq<Seq<u8>>) -> bool {
    &&& chunks.len() == 0 ==> !line_matches(pattern, Seq::empty())
    &&& forall|k: int|
        #![trigger chunks.take(k)]
        1 <= k < chunks.len() && line_matches(pattern, pending(concat(chunks.take(k))))
            ==> !line_matches(pattern, Seq::empty()) && (concat(chunks.skip(k)).len() == 0
            || concat(chunks.skip(k))[0] == TERMINATOR)
}

/// The text from chunk `k` on, with and without the last chunk.
proof fn lemma_concat_skip_last(chunks: Seq<Seq<u8>>, k: int)
    requires
        0 <= k < chunks.len(),
    ensures
        concat(chunks.skip(k)) == concat(chunks.drop_last().skip(k)) + chunks.last(),
{
    assert(chunks.skip(k).drop_last() == chunks.drop_last().skip(k));
}

/// Cutting a text into chunks does not change what the filter emits: the
/// outputs of the chunked stream, joined, are the output for the whole text
/// as one chunk, and the same bytes are held back at the end.
pub proof fn lemma_partition_invariance<E>(pattern: Regex, chunks: Seq<Seq<u8>>)
    requires
        splits_cleanly(pattern, chunks),
    ensures
        emitted_text(filtered_stream::<E>(pattern, ok_items(chunks))) == chunk_output(
            pattern,
            concat(chunks),
        ),
        chunks.len() > 0 ==> leftover_after::<E>(pattern, ok_items(chunks)) == chunk_leftover(
            pattern,
            concat(chunks),
        ),
    decreases chunks.len(),
{
    let empty = Seq::<u8>::empty();
    let items = ok_items::<E>(chunks);
    if chunks.len() == 0 {
        lemma_matching_lines_single(pattern, empty);
    } else {
        let front = chunks.drop_last();
        let last = chunks.last();
        let n = front.len() as int;
        assert(items.drop_last() == ok_items::<E>(front));
        lemma_filtered_stream_last(pattern, items);
        let out = filtered_stream::<E>(pattern, items);
        if n == 0 {
            assert(concat(front) == empty);
            assert(emitted_text(out.drop_last()) == empty);
        } else {
            assert forall|k: int|
                #![trigger front.take(k)]
                1 <= k < front.len() && line_matches(pattern, pending(concat(front.take(k))))
                implies !line_matches(pattern, empty) && (concat(front.skip(k)).len() == 0
                || concat(front.skip(k))[0] == TERMINATOR) by {
                assert(chunks.take(k) == front.take(k));
                lemma_concat_skip_last(chunks, k);
            }
            lemma_partition_invariance::<E>(pattern, front);
            lemma_concat_skip_last(chunks, n);
            lemma_filter_continues(pattern, concat(front), last);
        }
    }
}

/// A line whose terminator is the last byte of a chunk: what follows may
/// come in the same chunk or in the next, the filter emits the same. It
/// takes that the empty line does not match, for cutting after a terminator
/// leaves an empty unfinished line, which would be emitted at the cut.
pub proof fn lemma_boundary_split<E>(pattern: Regex, first: Seq<u8>, second: Seq<u8>)
    requires
        first.len() > 0,
        first.last() == TERMINATOR,
        !line_matches(pattern, Seq::empty()),
    ensures
        emitted_text(filtered_stream::<E>(pattern, ok_items(seq![first, second])))
            == emitted_text(filtered_stream::<E>(pattern, ok_items(seq![first + second]))),
        leftover_after::<E>(pattern, ok_items(seq![first, second])) == leftover_after::<E>(
            pattern,
            ok_items(seq![first + second]),
        ),
{
    let none = Seq::<Seq<u8>>::empty();
    let empty = Seq::<u8>::empty();
    let two = seq![first, second];
    let one = seq![first + second];
    lemma_pending_after_terminator(first);
    assert(two.drop_last() == seq![first]);
    assert(seq![first].drop_last() == none);
    assert(one.drop_last() == none);
    assert(concat(none) == empty);
    assert(concat(seq![first]) == empty + first);
    lemma_partition_invariance::<E>(pattern, two);
    lemma_partition_invariance::<E>(pattern, one);
}

/// One pattern and one stream give one outcome: two traversals that each
/// start with nothing held back emit the same items.
pub proof fn lemma_same_stream_same_output<E>(
    pattern: Regex,
    items: Seq<Result<Seq<u8>, E>>,
    once: Seq<Result<Seq<u8>, E>>,
    again: Seq<Result<Seq<u8>, E>>,
)
    requires
        once == filtered_stream(pattern, items),
        again == filtered_stream(pattern, items),
    ensures
        once == again,
{
}

} // verus!
