use crate::config::Config;
use crate::text::{chars_of, string_of, texts, trim, trim_range};
use vstd::prelude::*;
use vstd::string::StringExecFns;

verus! {

/// The overlap that is used: the one asked for where it is below the chunk
/// size, else a quarter of the size.
pub open spec fn effective_overlap(size: nat, overlap: nat) -> nat {
    if overlap >= size {
        size / 4
    } else {
        overlap
    }
}

/// Where the window that starts at `start` ends.
pub open spec fn window_end(len: nat, size: nat, start: nat) -> nat {
    if start + size < len {
        start + size
    } else {
        len
    }
}

/// The chunks of the windows from `start` on: each window of `size`
/// characters trimmed, the blank ones left out; each window starts `overlap`
/// characters before the end of the one before.
pub open spec fn chunks_from(text: Seq<char>, size: nat, overlap: nat, start: nat) -> Seq<
    Seq<char>,
>
    decreases text.len() - start,
{
    if start >= text.len() || overlap >= size {
        Seq::empty()
    } else {
        let end = window_end(text.len(), size, start);
        let piece = trim(text.subrange(start as int, end as int));
        let head = if piece.len() > 0 {
            seq![piece]
        } else {
            Seq::empty()
        };
        if end == text.len() {
            head
        } else {
            head + chunks_from(text, size, overlap, (end - overlap) as nat)
        }
    }
}

/// The chunks of a text: the text itself where the chunk size is zero, else
/// the trimmed windows.
pub open spec fn chunks_of(text: Seq<char>, size: nat, overlap: nat) -> Seq<Seq<char>> {
    if size == 0 {
        seq![text]
    } else {
        chunks_from(text, size, effective_overlap(size, overlap), 0)
    }
}

/// Cuts a text into overlapping chunks of at most `cfg.chunk_size` characters.
pub fn chunk_text(text: &str, cfg: &Config) -> (r: Vec<String>)
    ensures
        texts(r@) == chunks_of(
            text@,
            cfg.chunk_size as nat,
            cfg.chunk_overlap as nat,
        ),
{
    let size: usize = cfg.chunk_size;
    let mut overlap: usize = cfg.chunk_overlap;
    let mut chunks: Vec<String> = Vec::new();
    if size == 0 {
        chunks.push(String::from_str(text));
        return chunks;
    }
    if overlap >= size {
        overlap = size / 4;
    }
    let chars = chars_of(text);
    let len: usize = chars.len();
    let mut start: usize = 0;
    while start < len
        invariant
            start <= len,
            len == chars.len(),
            chars@ == text@,
            0 <= overlap < size,
            size == cfg.chunk_size,
            overlap as nat == effective_overlap(size as nat, cfg.chunk_overlap as nat),
            texts(chunks@) + chunks_from(
                text@,
                size as nat,
                overlap as nat,
                start as nat,
            ) == chunks_from(text@, size as nat, overlap as nat, 0),
        decreases len - start,
    {
        let end: usize = if size < len - start {
            start + size
        } else {
            len
        };
        let (a, b) = trim_range(&chars, start, end);
        if a < b {
            chunks.push(string_of(&chars, a, b));
        }
        if end == len {
            return chunks;
        }
        start = end - overlap;
    }
    chunks
}

} // verus!
