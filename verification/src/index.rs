use crate::config::Config;
use crate::text::{
    blank, chars_of, ends_with, ends_with_in, is_blank, same_text, texts, to_lowercase,
    unicode_lowercase,
};
use vstd::prelude::*;
use vstd::string::StringExecFns;

verus! {

/// What is stored with a chunk.
#[derive(Clone, Debug)]
pub struct PointPayload {
    pub path: String,
    pub index: usize,
    pub chunk: String,
}

/// A chunk to store, with the number it is stored under.
#[derive(Clone, Debug)]
pub struct PointRecord {
    pub id: i64,
    pub payload: PointPayload,
}

/// How far the indexing of a corpus has come.
#[derive(Clone, Copy, Debug)]
pub struct IndexProgress {
    /// The number that the next chunk is stored under.
    pub next_id: i64,
    /// Whether the collection is known to exist.
    pub collection_ready: bool,
}

/// What to do for one file of the corpus.
#[derive(Clone, Debug)]
pub struct IndexStep {
    /// Whether the collection has to be made sure of before anything is stored.
    pub ensure_collection: bool,
    /// The chunks to store, in order; the vector of each is the one at the
    /// same position.
    pub points: Vec<PointRecord>,
}

/// How many chunks of a file are stored: as many as have a vector.
pub open spec fn stored_count(chunks: nat, vectors: nat) -> nat {
    if chunks <= vectors {
        chunks
    } else {
        vectors
    }
}

impl IndexProgress {
    /// The progress before any file: numbers start at one, and nothing is
    /// known of the collection.
    pub fn new() -> (r: IndexProgress)
        ensures
            r.next_id == 1,
            !r.collection_ready,
    {
        IndexProgress { next_id: 1, collection_ready: false }
    }
}

/// Plans the storing of one file, given its chunks and how many vectors the
/// embedding returned for them. Chunk `i` gets the number `next_id + i` and
/// its position `i`; the collection is asked for before the first file that
/// has anything to store.
pub fn index_corpus(
    progress: &mut IndexProgress,
    path: &str,
    chunks: &Vec<String>,
    vectors: usize,
) -> (r: IndexStep)
    requires
        old(progress).next_id + stored_count(chunks.len() as nat, vectors as nat) <= i64::MAX,
    ensures
        r.points.len() == stored_count(chunks.len() as nat, vectors as nat),
        forall|i: int|
            0 <= i < r.points.len() ==> (#[trigger] r.points[i]).id == old(progress).next_id + i
                && r.points[i].payload.index == i && r.points[i].payload.path@ == path@
                && r.points[i].payload.chunk@ == chunks[i]@,
        final(progress).next_id == old(progress).next_id + r.points.len(),
        r.ensure_collection == (r.points.len() > 0 && !old(progress).collection_ready),
        final(progress).collection_ready == (old(progress).collection_ready || r.points.len() > 0),
{
    let count: usize = if chunks.len() <= vectors {
        chunks.len()
    } else {
        vectors
    };
    let mut points: Vec<PointRecord> = Vec::new();
    let first: i64 = progress.next_id;
    let mut i: usize = 0;
    while i < count
        invariant
            i <= count <= chunks.len(),
            points.len() == i,
            progress.next_id == first + i,
            progress.collection_ready == old(progress).collection_ready,
            first + count <= i64::MAX,
            forall|k: int|
                0 <= k < i ==> (#[trigger] points[k]).id == first + k && points[k].payload.index
                    == k && points[k].payload.path@ == path@ && points[k].payload.chunk@
                    == chunks[k]@,
        decreases count - i,
    {
        points.push(
            PointRecord {
                id: progress.next_id,
                payload: PointPayload {
                    path: String::from_str(path),
                    index: i,
                    chunk: chunks[i].clone(),
                },
            },
        );
        progress.next_id = progress.next_id + 1;
        i = i + 1;
    }
    let ensure_collection = count > 0 && !progress.collection_ready;
    if count > 0 {
        progress.collection_ready = true;
    }
    IndexStep { ensure_collection, points }
}

/// Whether one of `exts` ends `path`.
pub open spec fn has_extension(path: Seq<char>, exts: Seq<Seq<char>>) -> bool {
    exists|i: int| 0 <= i < exts.len() && ends_with(path, #[trigger] exts[i])
}

/// Whether a path, in lower case, ends with one of the endings.
pub fn ends_with_any(lowered: &str, exts: &[String]) -> (r: bool)
    ensures
        r == has_extension(lowered@, texts(exts@)),
{
    let path = chars_of(lowered);
    let mut i: usize = 0;
    while i < exts.len()
        invariant
            i <= exts.len(),
            path@ == lowered@,
            forall|k: int| 0 <= k < i ==> !ends_with(lowered@, #[trigger] texts(exts@)[k]),
        decreases exts.len() - i,
    {
        let ext = chars_of(exts[i].as_str());
        assert(texts(exts@)[i as int] == ext@);
        if ends_with_in(&path, &ext) {
            return true;
        }
        i = i + 1;
    }
    false
}

/// Whether a file is one to read: its path, in lower case, ends with one of
/// the endings.
pub fn is_text_file(path: &str, exts: &[String]) -> (r: bool)
    ensures
        r == has_extension(unicode_lowercase(path@), texts(exts@)),
{
    let lowered = to_lowercase(path);
    ends_with_any(lowered.as_str(), exts)
}

/// Whether `name` is one of the folders that are passed over.
pub fn is_excluded(name: &str, exclude_dirs: &[String]) -> (r: bool)
    ensures
        r == texts(exclude_dirs@).contains(name@),
{
    let mut i: usize = 0;
    while i < exclude_dirs.len()
        invariant
            i <= exclude_dirs.len(),
            forall|k: int| 0 <= k < i ==> texts(exclude_dirs@)[k] != name@,
        decreases exclude_dirs.len() - i,
    {
        assert(texts(exclude_dirs@)[i as int] == exclude_dirs@[i as int]@);
        if same_text(exclude_dirs[i].as_str(), name) {
            return true;
        }
        i = i + 1;
    }
    false
}

/// Whether a file of the given size, where it is known, is small enough to
/// be read.
pub fn within_size(size: Option<u64>, cfg: &Config) -> (r: bool)
    ensures
        r == match size {
            Some(n) => n <= cfg.max_file_bytes,
            None => true,
        },
{
    match size {
        Some(n) => n <= cfg.max_file_bytes,
        None => true,
    }
}

/// Whether the text of a file is worth indexing: it is not blank.
pub fn has_content(text: &str) -> (r: bool)
    ensures
        r == !is_blank(text@),
{
    !blank(text)
}

} // verus!
