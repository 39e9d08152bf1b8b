//! The line window reader: splits a byte source into lines and keeps a
//! contiguous run of them.

use itertools::Itertools;
use vstd::prelude::*;
use vstd::utf8::{decode_utf8, valid_utf8};

use crate::error::{result_view, ErrorView, PasteError};

verus! {

/// The byte that ends a line.
pub const NEWLINE: u8 = 10;

/// The byte dropped from the end of a line that `NEWLINE` ended.
pub const CARRIAGE_RETURN: u8 = 13;

/// A finished line without its carriage return, if it had one.
pub open spec fn strip_cr(line: Seq<u8>) -> Seq<u8> {
    if line.len() > 0 && line.last() == CARRIAGE_RETURN {
        line.drop_last()
    } else {
        line
    }
}

/// Reads `src` from left to right: the lines that a newline has ended
/// (carriage return stripped), and the bytes of the line still open.
pub open spec fn scan_lines(src: Seq<u8>) -> (Seq<Seq<u8>>, Seq<u8>)
    decreases src.len(),
{
    if src.len() == 0 {
        (Seq::empty(), Seq::empty())
    } else {
        let prev = scan_lines(src.drop_last());
        if src.last() == NEWLINE {
            (prev.0.push(strip_cr(prev.1)), Seq::empty())
        } else {
            (prev.0, prev.1.push(src.last()))
        }
    }
}

/// The bytes of each line of `src`: a last line without a newline counts
/// when it is not empty.
pub open spec fn raw_lines(src: Seq<u8>) -> Seq<Seq<u8>> {
    let s = scan_lines(src);
    if s.1.len() > 0 {
        s.0.push(s.1)
    } else {
        s.0
    }
}

/// The text of one line; a line that is not valid UTF-8 reads as empty.
pub open spec fn line_text(raw: Seq<u8>) -> Seq<char> {
    if valid_utf8(raw) {
        decode_utf8(raw)
    } else {
        Seq::empty()
    }
}

/// The lines of `src`, as text.
pub open spec fn source_lines(src: Seq<u8>) -> Seq<Seq<char>> {
    raw_lines(src).map_values(|l: Seq<u8>| line_text(l))
}

/// The character views of a vector of strings.
pub open spec fn texts(v: Seq<String>) -> Seq<Seq<char>> {
    v.map_values(|s: String| s@)
}

/// `parts` in order, with `sep` between each two.
pub open spec fn joined(parts: Seq<Seq<char>>, sep: Seq<char>) -> Seq<char>
    decreases parts.len(),
{
    if parts.len() == 0 {
        Seq::empty()
    } else if parts.len() == 1 {
        parts[0]
    } else {
        joined(parts.drop_last(), sep) + sep + parts.last()
    }
}

/// The lines from the one-based line `start_line` on, at most `count` of them
/// when a count is given.
pub open spec fn window<T>(lines: Seq<T>, start_line: int, count: Option<nat>) -> Seq<T> {
    let from = if start_line - 1 < lines.len() {
        start_line - 1
    } else {
        lines.len() as int
    };
    let to = match count {
        Some(k) => if from + k < lines.len() {
            from + k
        } else {
            lines.len() as int
        },
        None => lines.len() as int,
    };
    lines.subrange(from, to)
}

/// A line count as a natural number.
pub open spec fn count_view(c: Option<usize>) -> Option<nat> {
    match c {
        Some(k) => Some(k as nat),
        None => None,
    }
}

/// What [`read`] gives for a source, a start line and a count.
pub open spec fn read_model(src: Seq<u8>, start_line: int, count: Option<nat>) -> Result<
    Seq<char>,
    ErrorView,
> {
    if start_line < 1 {
        Err(ErrorView::InvalidParameter { name: "start"@, value: "0"@ })
    } else {
        Ok(joined(window(source_lines(src), start_line, count), "\n"@))
    }
}

/// Relies on std's `String::from_utf8`: it succeeds exactly on valid UTF-8,
/// and the string holds the characters that the bytes encode.
#[verifier::external_body]
fn decode_line(bytes: Vec<u8>) -> (r: Option<String>)
    ensures
        r is Some <==> valid_utf8(bytes@),
        r matches Some(s) ==> s@ == decode_utf8(bytes@),
{
    String::from_utf8(bytes).ok()
}

/// Relies on itertools' `Itertools::join`: each item's text in order, with
/// `sep` written between each two.
#[verifier::external_body]
fn join_with(parts: &Vec<String>, sep: &str) -> (r: String)
    ensures
        r@ == joined(texts(parts@), sep@),
{
    parts.iter().join(sep)
}

/// Pushes the text of a finished line.
fn push_line(lines: &mut Vec<String>, raw: Vec<u8>)
    ensures
        final(lines)@.len() == old(lines)@.len() + 1,
        texts(final(lines)@) == texts(old(lines)@).push(line_text(raw@)),
{
    let ghost raw_view = raw@;
    let text = match decode_line(raw) {
        Some(s) => s,
        None => String::new(),
    };
    lines.push(text);
    assert(texts(lines@) =~= texts(old(lines)@).push(line_text(raw_view)));
}

/// Splits `source` into lines, as a line-oriented reader does: each newline
/// ends a line and a carriage return before it is dropped; a last line without
/// a newline counts when it is not empty; a line that is not valid UTF-8
/// becomes an empty line.
pub fn split_lines(source: &[u8]) -> (r: Vec<String>)
    ensures
        texts(r@) == source_lines(source@),
{
    let mut lines: Vec<String> = Vec::new();
    let mut current: Vec<u8> = Vec::new();
    let mut i: usize = 0;
    while i < source.len()
        invariant
            i <= source@.len(),
            texts(lines@) == scan_lines(source@.subrange(0, i as int)).0.map_values(
                |l: Seq<u8>| line_text(l),
            ),
            current@ == scan_lines(source@.subrange(0, i as int)).1,
        decreases source@.len() - i,
    {
        let b = source[i];
        let ghost before = source@.subrange(0, i as int);
        let ghost after = source@.subrange(0, i + 1);
        assert(after.drop_last() =~= before);
        if b == NEWLINE {
            let n = current.len();
            if n > 0 && current[n - 1] == CARRIAGE_RETURN {
                current.pop();
            }
            let ghost done = scan_lines(before).0;
            assert(current@ == strip_cr(scan_lines(before).1)) by {
                if n > 0 && scan_lines(before).1.last() == CARRIAGE_RETURN {
                    assert(current@ =~= scan_lines(before).1.drop_last());
                }
            }
            let finished = current;
            current = Vec::new();
            push_line(&mut lines, finished);
            assert(done.push(strip_cr(scan_lines(before).1)).map_values(|l: Seq<u8>| line_text(l))
                =~= done.map_values(|l: Seq<u8>| line_text(l)).push(
                line_text(strip_cr(scan_lines(before).1)),
            ));
        } else {
            current.push(b);
        }
        i = i + 1;
    }
    assert(source@.subrange(0, source@.len() as int) =~= source@);
    let ghost s = scan_lines(source@);
    if current.len() > 0 {
        push_line(&mut lines, current);
        assert(s.0.push(s.1).map_values(|l: Seq<u8>| line_text(l)) =~= s.0.map_values(
            |l: Seq<u8>| line_text(l),
        ).push(line_text(s.1)));
    }
    lines
}

/// Keeps the lines from the one-based line `start_line` on, at most
/// `line_count` of them when a count is given.
pub fn select_lines(lines: Vec<String>, start_line: usize, line_count: Option<usize>) -> (r: Vec<
    String,
>)
    requires
        start_line >= 1,
    ensures
        r@ == window(lines@, start_line as int, count_view(line_count)),
        line_count matches Some(k) ==> r@.len() == if (k as int) < lines@.len() - start_line + 1 {
            k as int
        } else if lines@.len() - start_line + 1 > 0 {
            lines@.len() - start_line + 1
        } else {
            0
        },
        line_count is None ==> r@.len() == if lines@.len() >= start_line {
            lines@.len() - start_line + 1
        } else {
            0
        },
{
    let n = lines.len();
    let from = if start_line - 1 < n {
        start_line - 1
    } else {
        n
    };
    let to = match line_count {
        Some(k) => if k < n - from {
            from + k
        } else {
            n
        },
        None => n,
    };
    let mut kept = lines;
    kept.truncate(to);
    let r = kept.split_off(from);
    assert(r@ =~= window(lines@, start_line as int, count_view(line_count)));
    r
}

} // verus!

verus! {

/// Reads the window of lines of `source` that starts at the one-based line
/// `start_line` and holds at most `line_count` lines (all the rest when no
/// count is given), joined by single newlines with none after the last.
/// Line zero does not exist and is refused.
pub fn read(source: &[u8], start_line: usize, line_count: Option<usize>) -> (r: Result<
    String,
    PasteError,
>)
    ensures
        result_view(r) == read_model(source@, start_line as int, count_view(line_count)),
        r is Err <==> start_line == 0,
        start_line >= 1 && line_count is None && start_line <= source_lines(source@).len() + 1
            ==> (r matches Ok(s) && s@ == joined(
            source_lines(source@).subrange(start_line - 1, source_lines(source@).len() as int),
            "\n"@,
        )),
        start_line > source_lines(source@).len() ==> (r matches Ok(s) && s@.len() == 0),
{
    if start_line == 0 {
        return Err(
            PasteError::InvalidParameter { name: "start".to_owned(), value: "0".to_owned() },
        );
    }
    let lines = split_lines(source);
    let ghost all = texts(lines@);
    let kept = select_lines(lines, start_line, line_count);
    assert(texts(kept@) =~= window(all, start_line as int, count_view(line_count)));
    let text = join_with(&kept, "\n");
    proof {
        if start_line > all.len() {
            assert(texts(kept@).len() == 0);
        }
    }
    Ok(text)
}

} // verus!

verus! {

/// A window with a count of `k` lines holds `min(k, max(0, n - start_line + 1))`
/// of the `n` lines of the source.
pub proof fn lemma_window_len(src: Seq<u8>, start_line: int, k: nat)
    requires
        start_line >= 1,
    ensures
        ({
            let n = source_lines(src).len() as int;
            let rest = if n - start_line + 1 > 0 {
                n - start_line + 1
            } else {
                0
            };
            window(source_lines(src), start_line, Some(k)).len() == if k < rest {
                k as int
            } else {
                rest
            }
        }),
{
}

} // verus!
