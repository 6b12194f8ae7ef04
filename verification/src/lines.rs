use vstd::prelude::*;

verus! {

/// The byte that ends a line.
pub const TERMINATOR: u8 = 10;

/// The number of bytes of `data` that stand before its first terminator:
/// all of them when it holds none.
pub open spec fn first_line_len(data: Seq<u8>) -> nat
    decreases data.len(),
{
    if data.len() == 0 || data[0] == TERMINATOR {
        0
    } else {
        1 + first_line_len(data.skip(1))
    }
}

/// `data` split at every terminator. The terminators themselves are dropped.
/// There is always at least one candidate; the last one is what follows the
/// final terminator (all of `data` when there is none) and may be a line
/// whose end has not arrived yet.
pub open spec fn candidates(data: Seq<u8>) -> Seq<Seq<u8>>
    decreases data.len(),
{
    let n = first_line_len(data) as int;
    if n >= data.len() {
        seq![data]
    } else {
        seq![data.take(n)] + candidates(data.skip(n + 1))
    }
}

/// The last candidate of `data`: the bytes not yet known to end a line.
pub open spec fn pending(data: Seq<u8>) -> Seq<u8> {
    candidates(data).last()
}

/// `first_line_len` is the position of the first terminator, or the length of
/// `data` when no terminator occurs in it.
pub proof fn lemma_first_line_len(data: Seq<u8>)
    ensures
        first_line_len(data) <= data.len(),
        forall|i: int| 0 <= i < first_line_len(data) ==> data[i] != TERMINATOR,
        first_line_len(data) < data.len() ==> data[first_line_len(data) as int] == TERMINATOR,
    decreases data.len(),
{
    if data.len() > 0 && data[0] != TERMINATOR {
        let rest = data.skip(1);
        lemma_first_line_len(rest);
        assert forall|i: int| 0 <= i < first_line_len(data) implies data[i] != TERMINATOR by {
            if i > 0 {
                assert(data[i] == rest[i - 1]);
            }
        }
    }
}

/// A prefix free of terminators is part of the first line, and a terminator
/// right after it ends that line.
pub proof fn lemma_first_line_len_at(data: Seq<u8>, k: int)
    requires
        0 <= k <= data.len(),
        forall|i: int| 0 <= i < k ==> data[i] != TERMINATOR,
        k < data.len() ==> data[k] == TERMINATOR,
    ensures
        first_line_len(data) == k,
{
    lemma_first_line_len(data);
}

/// Whether the candidate at position `i` is kept: it is when `keep` holds a
/// verdict for it and the verdict is true.
pub open spec fn kept(keep: Seq<bool>, i: int) -> bool {
    0 <= i < keep.len() && keep[i]
}

/// The lines that `keep` selects, in their order in `lines`.
pub open spec fn kept_lines(lines: Seq<Seq<u8>>, keep: Seq<bool>) -> Seq<Seq<u8>>
    decreases lines.len(),
{
    if lines.len() == 0 {
        Seq::empty()
    } else if kept(keep, lines.len() - 1) {
        kept_lines(lines.drop_last(), keep).push(lines.last())
    } else {
        kept_lines(lines.drop_last(), keep)
    }
}

/// The lines written out one after another, each followed by a terminator.
pub open spec fn terminated(lines: Seq<Seq<u8>>) -> Seq<u8>
    decreases lines.len(),
{
    if lines.len() == 0 {
        Seq::empty()
    } else {
        terminated(lines.drop_last()) + lines.last().push(TERMINATOR)
    }
}

/// What a buffer emits under the verdicts `keep`, one per candidate: every
/// kept candidate with a terminator after it. A kept last candidate is
/// emitted at once, terminator included, although its end may not have
/// arrived.
pub open spec fn selected_output(data: Seq<u8>, keep: Seq<bool>) -> Seq<u8> {
    terminated(kept_lines(candidates(data), keep))
}

/// What a buffer carries over under the verdicts `keep`: its last candidate,
/// untouched, unless that candidate was kept and so already emitted.
pub open spec fn selected_leftover(data: Seq<u8>, keep: Seq<bool>) -> Seq<u8> {
    if kept(keep, candidates(data).len() - 1) {
        Seq::empty()
    } else {
        pending(data)
    }
}

/// Selecting from a list that grew by one line at its end.
pub proof fn lemma_kept_lines_push(lines: Seq<Seq<u8>>, keep: Seq<bool>, line: Seq<u8>)
    ensures
        kept_lines(lines.push(line), keep) == if kept(keep, lines.len() as int) {
            kept_lines(lines, keep).push(line)
        } else {
            kept_lines(lines, keep)
        },
{
    assert(lines.push(line).drop_last() == lines);
}

/// Writing out a list that grew by one line at its end.
pub proof fn lemma_terminated_push(lines: Seq<Seq<u8>>, line: Seq<u8>)
    ensures
        terminated(lines.push(line)) == terminated(lines) + line.push(TERMINATOR),
{
    assert(lines.push(line).drop_last() == lines);
}

/// The two parts that one buffer falls into.
pub struct Selection {
    /// The kept lines, each with its terminator.
    pub output: Vec<u8>,
    /// The bytes held back for the next buffer.
    pub leftover: Vec<u8>,
}

/// Appends `source` to `target`.
pub fn append_bytes(target: &mut Vec<u8>, source: &[u8])
    ensures
        final(target)@ == old(target)@ + source@,
{
    let mut i: usize = 0;
    while i < source.len()
        invariant
            i <= source.len(),
            target@ == old(target)@ + source@.take(i as int),
        decreases source.len() - i,
    {
        target.push(source[i]);
        i += 1;
    }
}

/// Splits `data` into candidate lines and sorts them by the verdicts in
/// `keep`, of which the one at position `i` belongs to candidate `i`.
pub fn select_lines(data: &[u8], keep: &[bool]) -> (picked: Selection)
    ensures
        picked.output@ == selected_output(data@, keep@),
        picked.leftover@ == selected_leftover(data@, keep@),
{
    let mut output: Vec<u8> = Vec::new();
    let mut start: usize = 0;
    let mut line_no: usize = 0;
    let mut i: usize = 0;
    let ghost mut done: Seq<Seq<u8>> = Seq::empty();
    assert(data@.skip(0) == data@);
    while i < data.len()
        invariant
            start <= i <= data.len(),
            line_no == done.len(),
            line_no <= start,
            forall|j: int| start <= j < i ==> data@[j] != TERMINATOR,
            candidates(data@) == done + candidates(data@.skip(start as int)),
            output@ == terminated(kept_lines(done, keep@)),
        decreases data.len() - i,
    {
        if data[i] == TERMINATOR {
            let line = vstd::slice::slice_subrange(data, start, i);
            proof {
                let rest = data@.skip(start as int);
                lemma_first_line_len_at(rest, i - start);
                assert(rest.take(i - start) == line@);
                assert(rest.skip(i - start + 1) == data@.skip(i + 1));
                lemma_kept_lines_push(done, keep@, line@);
                lemma_terminated_push(kept_lines(done, keep@), line@);
            }
            if line_no < keep.len() && keep[line_no] {
                append_bytes(&mut output, line);
                output.push(TERMINATOR);
            }
            proof {
                done = done.push(line@);
            }
            line_no += 1;
            start = i + 1;
        }
        i += 1;
    }
    let tail = vstd::slice::slice_subrange(data, start, data.len());
    proof {
        let rest = data@.skip(start as int);
        lemma_first_line_len_at(rest, data.len() - start);
        assert(candidates(data@) == done.push(tail@));
        lemma_kept_lines_push(done, keep@, tail@);
        lemma_terminated_push(kept_lines(done, keep@), tail@);
    }
    let mut leftover: Vec<u8> = Vec::new();
    if line_no < keep.len() && keep[line_no] {
        append_bytes(&mut output, tail);
        output.push(TERMINATOR);
    } else {
        append_bytes(&mut leftover, tail);
    }
    Selection { output, leftover }
}

} // verus!
