use crate::chunk::{bytes_view, chunk_bytes, chunk_from};
use crate::lines::{
    append_bytes, candidates, kept_lines, lemma_first_line_len_at, pending, select_lines,
    terminated, TERMINATOR,
};
use crate::pattern::{line_matches, matches_line};
use bytes::Bytes;
use regex::Regex;
use std::sync::Arc;
use vstd::prelude::*;

verus! {

/// The verdict of `pattern` on every candidate line of `data`.
pub open spec fn line_verdicts(pattern: Regex, data: Seq<u8>) -> Seq<bool> {
    Seq::new(candidates(data).len(), |i: int| line_matches(pattern, candidates(data)[i]))
}

/// The lines among `lines` that `pattern` matches, in their order.
pub open spec fn matching_lines(pattern: Regex, lines: Seq<Seq<u8>>) -> Seq<Seq<u8>>
    decreases lines.len(),
{
    if lines.len() == 0 {
        Seq::empty()
    } else if line_matches(pattern, lines.last()) {
        matching_lines(pattern, lines.drop_last()).push(lines.last())
    } else {
        matching_lines(pattern, lines.drop_last())
    }
}

/// The lines that one combined buffer (leftover, then the new chunk) emits:
/// its matching candidates. The last candidate counts like the others, so a
/// matching one is emitted before its terminator has been seen.
pub open spec fn chunk_lines(pattern: Regex, combined: Seq<u8>) -> Seq<Seq<u8>> {
    matching_lines(pattern, candidates(combined))
}

/// The bytes that one combined buffer emits: its lines, each with a
/// terminator.
pub open spec fn chunk_output(pattern: Regex, combined: Seq<u8>) -> Seq<u8> {
    terminated(chunk_lines(pattern, combined))
}

/// What one combined buffer leaves for the next chunk: its last candidate,
/// byte for byte, unless that candidate matched and was emitted.
pub open spec fn chunk_leftover(pattern: Regex, combined: Seq<u8>) -> Seq<u8> {
    if line_matches(pattern, pending(combined)) {
        Seq::empty()
    } else {
        pending(combined)
    }
}

/// Selecting by verdicts that agree with the pattern gives the matching
/// lines.
pub proof fn lemma_verdicts_select(pattern: Regex, lines: Seq<Seq<u8>>, keep: Seq<bool>)
    requires
        keep.len() >= lines.len(),
        forall|i: int| 0 <= i < lines.len() ==> keep[i] == line_matches(pattern, lines[i]),
    ensures
        kept_lines(lines, keep) == matching_lines(pattern, lines),
    decreases lines.len(),
{
    if lines.len() > 0 {
        lemma_verdicts_select(pattern, lines.drop_last(), keep);
    }
}

/// An item of a stream as the filter reads it: the bytes of a chunk, or the
/// error that came in its place.
pub open spec fn item_view<E>(item: Result<Bytes, E>) -> Result<Seq<u8>, E> {
    match item {
        Ok(chunk) => Ok(bytes_view(chunk)),
        Err(error) => Err(error),
    }
}

/// A whole stream as the filter reads it.
pub open spec fn items_view<E>(items: Seq<Result<Bytes, E>>) -> Seq<Result<Seq<u8>, E>> {
    Seq::new(items.len(), |i: int| item_view(items[i]))
}

/// The item that goes out for `item` when `before` is held back: the filtered
/// chunk, or the error unchanged.
pub open spec fn filtered_item<E>(pattern: Regex, before: Seq<u8>, item: Result<Seq<u8>, E>)
    -> Result<Seq<u8>, E> {
    match item {
        Ok(chunk) => Ok(chunk_output(pattern, before + chunk)),
        Err(error) => Err(error),
    }
}

/// What is held back after `item` when `before` was held back ahead of it.
/// An error leaves it as it was.
pub open spec fn next_leftover<E>(pattern: Regex, before: Seq<u8>, item: Result<Seq<u8>, E>)
    -> Seq<u8> {
    match item {
        Ok(chunk) => chunk_leftover(pattern, before + chunk),
        Err(_) => before,
    }
}

/// What a traversal that started with nothing held back holds back after
/// `items`.
pub open spec fn leftover_after<E>(pattern: Regex, items: Seq<Result<Seq<u8>, E>>) -> Seq<u8>
    decreases items.len(),
{
    if items.len() == 0 {
        Seq::empty()
    } else {
        next_leftover(pattern, leftover_after(pattern, items.drop_last()), items.last())
    }
}

/// The stream that goes out for `items`: one item for each, in order, each
/// filtered with what the items ahead of it left behind.
pub open spec fn filtered_stream<E>(pattern: Regex, items: Seq<Result<Seq<u8>, E>>) -> Seq<
    Result<Seq<u8>, E>,
> {
    Seq::new(
        items.len(),
        |k: int| filtered_item(pattern, leftover_after(pattern, items.take(k)), items[k]),
    )
}

/// The tail of the most recent chunk that is not yet known to end a line.
/// One traversal of a stream owns one of these, from its first chunk to its
/// last.
pub struct Leftover {
    bytes: Vec<u8>,
}

impl View for Leftover {
    type V = Seq<u8>;

    closed spec fn view(&self) -> Seq<u8> {
        self.bytes@
    }
}

impl Leftover {
    /// The state a traversal starts with: nothing is held back.
    pub fn new() -> (fresh: Self)
        ensures
            fresh@ == Seq::<u8>::empty(),
    {
        Leftover { bytes: Vec::new() }
    }

    /// The bytes held back.
    pub fn as_slice(&self) -> (bytes: &[u8])
        ensures
            bytes@ == self@,
    {
        self.bytes.as_slice()
    }
}

/// Keeps the lines of a byte stream that a pattern matches.
pub struct RegexStreamFilter {
    regex: Arc<Regex>,
}

impl RegexStreamFilter {
    /// The pattern every line is held against.
    pub closed spec fn pattern(&self) -> Regex {
        *self.regex
    }

    /// A filter for `regex`.
    pub fn new(regex: Regex) -> (filter: Self)
        ensures
            filter.pattern() == regex,
    {
        Self { regex: Arc::new(regex) }
    }

    /// One verdict per candidate line of `data`, in order.
    pub fn verdicts(&self, data: &[u8]) -> (keep: Vec<bool>)
        ensures
            keep@ == line_verdicts(self.pattern(), data@),
    {
        let mut keep: Vec<bool> = Vec::new();
        let mut start: usize = 0;
        let mut i: usize = 0;
        let ghost mut done: Seq<Seq<u8>> = Seq::empty();
        assert(data@.skip(0) == data@);
        while i < data.len()
            invariant
                start <= i <= data.len(),
                keep@.len() == done.len(),
                forall|j: int| start <= j < i ==> data@[j] != TERMINATOR,
                candidates(data@) == done + candidates(data@.skip(start as int)),
                forall|k: int|
                    0 <= k < done.len() ==> keep@[k] == line_matches(self.pattern(), done[k]),
            decreases data.len() - i,
        {
            if data[i] == TERMINATOR {
                let line = vstd::slice::slice_subrange(data, start, i);
                proof {
                    let rest = data@.skip(start as int);
                    lemma_first_line_len_at(rest, i - start);
                    assert(rest.take(i - start) == line@);
                    assert(rest.skip(i - start + 1) == data@.skip(i + 1));
                }
                keep.push(matches_line(&self.regex, line));
                proof {
                    done = done.push(line@);
                }
                start = i + 1;
            }
            i += 1;
        }
        let tail = vstd::slice::slice_subrange(data, start, data.len());
        proof {
            let rest = data@.skip(start as int);
            lemma_first_line_len_at(rest, data.len() - start);
        }
        keep.push(matches_line(&self.regex, tail));
        keep
    }

    /// Filters one chunk: the leftover goes in front of it, every candidate
    /// line of the two together is held against the pattern, the matching ones
    /// are emitted, and a last candidate that does not match is held back.
    pub fn filter_chunk(&self, leftover: &mut Leftover, chunk: &Bytes) -> (output: Bytes)
        ensures
            bytes_view(output) == chunk_output(
                self.pattern(),
                old(leftover)@ + bytes_view(*chunk),
            ),
            final(leftover)@ == chunk_leftover(
                self.pattern(),
                old(leftover)@ + bytes_view(*chunk),
            ),
    {
        let mut combined: Vec<u8> = Vec::new();
        core::mem::swap(&mut leftover.bytes, &mut combined);
        append_bytes(&mut combined, chunk_bytes(chunk));
        let keep = self.verdicts(combined.as_slice());
        let picked = select_lines(combined.as_slice(), keep.as_slice());
        proof {
            lemma_verdicts_select(self.pattern(), candidates(combined@), keep@);
        }
        leftover.bytes = picked.leftover;
        chunk_from(picked.output)
    }

    /// Filters one item of a stream. A chunk is filtered; an error goes out
    /// as it came in and leaves the leftover untouched.
    pub fn filter_item<E>(&self, leftover: &mut Leftover, item: Result<Bytes, E>) -> (out: Result<
        Bytes,
        E,
    >)
        ensures
            item_view(out) == filtered_item(self.pattern(), old(leftover)@, item_view(item)),
            final(leftover)@ == next_leftover(self.pattern(), old(leftover)@, item_view(item)),
    {
        match item {
            Ok(chunk) => Ok(self.filter_chunk(leftover, &chunk)),
            Err(error) => Err(error),
        }
    }

    /// Filters a whole stream in one traversal, which starts with nothing
    /// held back. Every item in gives one item out.
    pub fn filter_stream<E>(&self, items: Vec<Result<Bytes, E>>) -> (out: Vec<Result<Bytes, E>>)
        ensures
            out@.len() == items@.len(),
            items_view(out@) == filtered_stream(self.pattern(), items_view(items@)),
    {
        let ghost all = items_view(items@);
        let mut leftover = Leftover::new();
        let mut out: Vec<Result<Bytes, E>> = Vec::new();
        for item in it: items
            invariant
                it.seq() == items@,
                out@.len() == it.index(),
                leftover@ == leftover_after(self.pattern(), all.take(it.index() as int)),
                forall|k: int|
                    0 <= k < out@.len() ==> item_view(out@[k]) == filtered_item(
                        self.pattern(),
                        leftover_after(self.pattern(), all.take(k)),
                        all[k],
                    ),
                all == items_view(items@),
        {
            proof {
                let n = it.index() as int;
                assert(all.take(n + 1).drop_last() == all.take(n));
            }
            let filtered = self.filter_item(&mut leftover, item);
            out.push(filtered);
        }
        out
    }
}

} // verus!
