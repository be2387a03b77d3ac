//! Word-window document chunking and the integer part of the stand-in
//! embedding.

use vstd::prelude::*;
use crate::retrieval::{window_covers, window_is_open, window_text};
use crate::text::{
    chars_of, decimal, join_range, push_decimal, seqs_of, split_whitespace,
    string_from_chars, words,
};

verus! {

broadcast use vstd::string::group_string_axioms;

/// Number of values in an embedding vector.
pub const EMBEDDING_DIMENSIONS: usize = 384;

/// Embedding service for generating vector representations (a stand-in that
/// derives the vector from a hash of the text).
pub struct EmbeddingService {}

impl EmbeddingService {
    pub fn new() -> (s: EmbeddingService) {
        EmbeddingService {  }
    }

    /// The embedding of a text whose hash is `hash`, in thousandths: value `i`
    /// is `hash * (i + 1)` (wrapping) modulo 1000; the embedding divides each by 1000.
    pub fn embedding_permille(&self, hash: u64) -> (v: Vec<u16>)
        ensures
            v@.len() == EMBEDDING_DIMENSIONS,
            forall|i: int|
                0 <= i < EMBEDDING_DIMENSIONS ==> #[trigger] v@[i] as int == (hash.wrapping_mul(
                    (i + 1) as u64,
                ) % 1000) as int,
    {
        let mut v: Vec<u16> = Vec::new();
        let mut i: usize = 0;
        while i < EMBEDDING_DIMENSIONS
            invariant
                i <= EMBEDDING_DIMENSIONS,
                v@.len() == i,
                forall|k: int|
                    0 <= k < i ==> #[trigger] v@[k] as int == (hash.wrapping_mul((k + 1) as u64)
                        % 1000) as int,
            decreases EMBEDDING_DIMENSIONS - i,
        {
            let value = hash.wrapping_mul((i + 1) as u64) % 1000;
            v.push(value as u16);
            i = i + 1;
        }
        v
    }
}

/// A chunk of a document: its id, its words, and its metadata entries.
#[derive(Debug, Clone)]
pub struct DocumentChunk {
    pub id: String,
    pub content: String,
    /// Metadata as key/value pairs: "source" and "chunk_index".
    pub metadata: Vec<(String, String)>,
}

/// Document processor for chunking documents.
pub struct DocumentProcessor {
    pub chunk_size: usize,
    pub overlap: usize,
}

/// Words from one window's start to the next: the window size less the overlap.
pub open spec fn processor_step(size: nat, overlap: nat) -> nat {
    if overlap < size {
        (size - overlap) as nat
    } else {
        1
    }
}

/// Chunking ends for `n` words: no words, or windows of a positive size that
/// either cover everything at once or overlap by less than their size.
pub open spec fn chunking_ends(n: nat, size: nat, overlap: nat) -> bool {
    n == 0 || (size > 0 && (n <= size || overlap < size))
}

/// The id of the chunk that starts at word `start` of `source`.
pub open spec fn chunk_id(source: Seq<char>, start: nat) -> Seq<char> {
    source + "_"@ + decimal(start)
}

/// The metadata of the chunk that starts at word `start` of `source`.
pub open spec fn chunk_metadata(source: Seq<char>, start: nat) -> Seq<(Seq<char>, Seq<char>)> {
    seq![("source"@, source), ("chunk_index"@, decimal(start))]
}

/// Views metadata pairs as character sequences.
pub open spec fn pairs_view(m: Seq<(String, String)>) -> Seq<(Seq<char>, Seq<char>)> {
    m.map_values(|p: (String, String)| (p.0@, p.1@))
}

/// Chunk `k` starts at word `k * step`, holds `size` words (fewer at the end) joined
/// by spaces, and is named and described by that start; the chunks stop after the
/// first one that reaches the last word.
pub open spec fn is_window_chunking(
    r: Seq<DocumentChunk>,
    ws: Seq<Seq<char>>,
    source: Seq<char>,
    size: nat,
    step: nat,
) -> bool {
    if ws.len() == 0 {
        r.len() == 0
    } else {
        &&& r.len() > 0
        &&& forall|k: int|
            0 <= k < r.len() ==> {
                &&& (#[trigger] r[k]).content@ == window_text(ws, (k * step) as nat, size)
                &&& r[k].id@ == chunk_id(source, (k * step) as nat)
                &&& pairs_view(r[k].metadata@) == chunk_metadata(source, (k * step) as nat)
            }
        &&& forall|k: int| 0 <= k < r.len() - 1 ==> #[trigger] window_is_open(k, step, size, ws.len())
        &&& (r.len() - 1) * step + size >= ws.len()
    }
}

/// The processor's chunks skip no word: every word of the text lies in the
/// window of some chunk.
pub proof fn law_processor_chunks_cover_every_word(
    r: Seq<DocumentChunk>,
    ws: Seq<Seq<char>>,
    source: Seq<char>,
    size: nat,
    overlap: nat,
    j: int,
)
    requires
        is_window_chunking(r, ws, source, size, processor_step(size, overlap)),
        size > 0,
        0 <= j < ws.len(),
    ensures
        exists|k: int| 0 <= k < r.len() && #[trigger] window_covers(k, processor_step(size, overlap), size, j),
{
    let step = processor_step(size, overlap);
    let n = r.len() as int;
    assert(step >= 1 && step <= size);
    let k0 = j / step as int;
    assert(k0 * step <= j < k0 * step + step) by (nonlinear_arith)
        requires
            step >= 1,
            j >= 0,
            k0 == j / step as int,
    ;
    if k0 < n {
        assert(window_covers(k0, step, size, j));
    } else {
        assert((n - 1) * step <= k0 * step) by (nonlinear_arith)
            requires
                n - 1 < k0,
                step >= 1,
        ;
        assert(window_covers(n - 1, step, size, j));
    }
}

impl DocumentProcessor {
    pub fn new(chunk_size: usize, overlap: usize) -> (p: DocumentProcessor)
        ensures
            p.chunk_size == chunk_size,
            p.overlap == overlap,
    {
        DocumentProcessor { chunk_size, overlap }
    }

    /// Splits text into chunks of `chunk_size` words that overlap by `overlap` words.
    pub fn chunk_text(&self, text: &str, source: &str) -> (r: Vec<DocumentChunk>)
        requires
            chunking_ends(words(text@).len(), self.chunk_size as nat, self.overlap as nat),
        ensures
            is_window_chunking(
                r@,
                words(text@),
                source@,
                self.chunk_size as nat,
                processor_step(self.chunk_size as nat, self.overlap as nat),
            ),
    {
        let ws = split_whitespace(chars_of(text).as_slice());
        let ghost wseq = seqs_of(ws@);
        let src = chars_of(source);
        let n = ws.len();
        let size = self.chunk_size;
        let overlap = self.overlap;
        let step: usize = if overlap < size {
            size - overlap
        } else {
            1
        };
        let mut chunks: Vec<DocumentChunk> = Vec::new();
        if n == 0 {
            return chunks;
        }
        let mut start: usize = 0;
        loop
            invariant
                wseq == seqs_of(ws@),
                wseq == words(text@),
                src@ == source@,
                n == ws@.len(),
                n > 0,
                size == self.chunk_size,
                overlap == self.overlap,
                size > 0,
                n <= size || overlap < size,
                step == processor_step(size as nat, overlap as nat),
                start == chunks@.len() * step,
                start < n,
                forall|k: int|
                    0 <= k < chunks@.len() ==> {
                        &&& (#[trigger] chunks@[k]).content@ == window_text(
                            wseq,
                            (k * step) as nat,
                            size as nat,
                        )
                        &&& chunks@[k].id@ == chunk_id(source@, (k * step) as nat)
                        &&& pairs_view(chunks@[k].metadata@) == chunk_metadata(
                            source@,
                            (k * step) as nat,
                        )
                    },
                forall|k: int|
                    0 <= k < chunks@.len() ==> #[trigger] window_is_open(
                        k,
                        step as nat,
                        size as nat,
                        n as nat,
                    ),
            decreases n - start,
        {
            let end: usize = if size <= n - start {
                start + size
            } else {
                n
            };
            let piece = join_range(&ws, start, end, ' ');
            let mut id = src.clone();
            id.push('_');
            push_decimal(&mut id, start as u64);
            let mut index_text: Vec<char> = Vec::new();
            push_decimal(&mut index_text, start as u64);
            let mut metadata: Vec<(String, String)> = Vec::new();
            metadata.push((String::from_str("source"), String::from_str(source)));
            metadata.push(
                (String::from_str("chunk_index"), string_from_chars(index_text.as_slice())),
            );
            let ghost k = chunks@.len();
            proof {
                reveal_strlit("_");
                assert(id@ =~= chunk_id(source@, (k * step) as nat));
                assert(pairs_view(metadata@) =~= chunk_metadata(source@, (k * step) as nat));
            }
            let ghost old_chunks = chunks@;
            chunks.push(
                DocumentChunk {
                    id: string_from_chars(id.as_slice()),
                    content: string_from_chars(piece.as_slice()),
                    metadata,
                },
            );
            assert forall|m: int| 0 <= m < chunks@.len() implies {
                &&& (#[trigger] chunks@[m]).content@ == window_text(
                    wseq,
                    (m * step) as nat,
                    size as nat,
                )
                &&& chunks@[m].id@ == chunk_id(source@, (m * step) as nat)
                &&& pairs_view(chunks@[m].metadata@) == chunk_metadata(source@, (m * step) as nat)
            } by {
                if m < old_chunks.len() {
                    assert(chunks@[m] == old_chunks[m]);
                }
            }
            if end == n {
                assert(is_window_chunking(chunks@, wseq, source@, size as nat, step as nat));
                return chunks;
            }
            assert(window_is_open(k as int, step as nat, size as nat, n as nat));
            assert((k + 1) * step == k * step + step) by (nonlinear_arith);
            start = end - overlap;
        }
    }
}

} // verus!
