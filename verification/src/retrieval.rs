//! Retrieval preparation: splitting text into overlapping chunks, hashing
//! chunk content, and extracting text from uploaded files.

use vstd::prelude::*;
use crate::text::{
    ascii_lowercase, chars_of, find_chars, is_ascii_text, find_from, is_whitespace, is_ws, join, join_range, lemma_find_from,
    lemma_trim_first, lemma_words_nonempty, push_all, starts_with, ends_with, ends_with_chars,
    lowercase, to_lowercase, seqs_of, split_whitespace, string_from_chars, strs, trim,
    trim_chars, utf8_len_exceeds, words,
};
use vstd::utf8::encode_utf8;
use sha2::Digest;
use std::io::Read;

verus! {

broadcast use vstd::string::group_string_axioms;

/// Configuration for chunking behaviour.
pub struct ChunkConfig {
    /// Target chunk size, in bytes of text (about five per word).
    pub chunk_size: usize,
    /// Overlap between neighbouring chunks, in bytes of text.
    pub chunk_overlap: usize,
    /// At most this many chunks are made of one document.
    pub max_chunks_per_doc: usize,
}

impl Default for ChunkConfig {
    fn default() -> (c: ChunkConfig)
        ensures
            c.chunk_size == 500,
            c.chunk_overlap == 50,
            c.max_chunks_per_doc == 100,
    {
        ChunkConfig { chunk_size: 500, chunk_overlap: 50, max_chunks_per_doc: 100 }
    }
}

/// Words per chunk: the chunk size over five.
pub open spec fn words_per_chunk(c: ChunkConfig) -> nat {
    c.chunk_size as nat / 5
}

/// Words from one chunk's start to the next one's: the words per chunk less
/// the overlap in words, or one where the overlap is not smaller.
pub open spec fn chunk_step(c: ChunkConfig) -> nat {
    let w = c.chunk_size as nat / 5;
    let o = c.chunk_overlap as nat / 5;
    if w > o {
        (w - o) as nat
    } else {
        1
    }
}

/// The end of the window of `width` words that starts at `start`, within `n` words.
pub open spec fn window_end(start: nat, width: nat, n: nat) -> nat {
    if start + width <= n {
        start + width
    } else {
        n
    }
}

/// The window that starts at word `k * step` ends before the last word.
pub open spec fn window_is_open(k: int, step: nat, width: nat, n: nat) -> bool {
    k * step + width < n
}

/// The text of the window of `width` words starting at word `start`, words joined by one space.
pub open spec fn window_text(ws: Seq<Seq<char>>, start: nat, width: nat) -> Seq<char> {
    join(ws.subrange(start as int, window_end(start, width, ws.len()) as int), seq![' '])
}

/// The word chunks of a text that is longer than one chunk: window `k` starts at
/// word `k * step` and holds `width` words (fewer at the end); the windows stop
/// after the first one that reaches the last word, or at `max` windows; with no
/// words per chunk there are none.
pub open spec fn is_word_chunking(
    r: Seq<Seq<char>>,
    ws: Seq<Seq<char>>,
    width: nat,
    step: nat,
    max: nat,
) -> bool {
    if width == 0 {
        r.len() == 0
    } else {
        &&& r.len() <= max
        &&& forall|k: int| 0 <= k < r.len() ==> #[trigger] r[k] == window_text(ws, (k * step) as nat, width)
        &&& forall|k: int| 0 <= k < r.len() - 1 ==> #[trigger] window_is_open(k, step, width, ws.len())
        &&& r.len() < max ==> r.len() > 0 && (r.len() - 1) * step + width >= ws.len()
    }
}

/// The chunks of a text: none when it is blank; the trimmed text itself when it
/// fits in one chunk (by its UTF-8 length); else its word chunking.
pub open spec fn is_chunking_of(r: Seq<Seq<char>>, content: Seq<char>, c: ChunkConfig) -> bool {
    let t = trim(content);
    if t.len() == 0 {
        r.len() == 0
    } else if encode_utf8(t).len() <= c.chunk_size {
        r == seq![t]
    } else {
        is_word_chunking(r, words(t), words_per_chunk(c), chunk_step(c), c.max_chunks_per_doc as nat)
    }
}

/// A text has one chunking: two chunkings of the same text under the same
/// settings are the same chunks (so `create_chunks` holds exactly the chunks
/// that `chunk_text` returns).
pub proof fn law_chunking_is_unique(
    r1: Seq<Seq<char>>,
    r2: Seq<Seq<char>>,
    content: Seq<char>,
    c: ChunkConfig,
)
    requires
        is_chunking_of(r1, content, c),
        is_chunking_of(r2, content, c),
    ensures
        r1 == r2,
{
    let t = trim(content);
    if t.len() != 0 && encode_utf8(t).len() > c.chunk_size {
        let ws = words(t);
        let w = words_per_chunk(c);
        let step = chunk_step(c);
        let max = c.max_chunks_per_doc as nat;
        if w > 0 {
            lemma_word_chunking_length(r1, r2, ws, w, step, max);
            lemma_word_chunking_length(r2, r1, ws, w, step, max);
            assert forall|k: int| 0 <= k < r1.len() implies r1[k] == r2[k] by {
                assert(r1[k] == window_text(ws, (k * step) as nat, w));
                assert(r2[k] == window_text(ws, (k * step) as nat, w));
            }
            assert(r1 =~= r2);
        } else {
            assert(r1 =~= r2);
        }
    }
}

/// No word chunking is longer than another of the same words.
proof fn lemma_word_chunking_length(
    r1: Seq<Seq<char>>,
    r2: Seq<Seq<char>>,
    ws: Seq<Seq<char>>,
    w: nat,
    step: nat,
    max: nat,
)
    requires
        w > 0,
        is_word_chunking(r1, ws, w, step, max),
        is_word_chunking(r2, ws, w, step, max),
    ensures
        r1.len() <= r2.len(),
{
    if r2.len() < r1.len() {
        // r2 stopped before the limit, so its last window reaches the last word,
        // while r1 goes on past that window only when it is open.
        assert(r2.len() < max);
        let k = r2.len() - 1;
        assert(0 <= k < r1.len() - 1);
        assert(window_is_open(k, step, w, ws.len()));
    }
}

/// The window of `width` words that starts at word `k * step` holds word `j`.
pub open spec fn window_covers(k: int, step: nat, width: nat, j: int) -> bool {
    k * step <= j < k * step + width
}

/// Chunking skips no word: when the chunks of a text longer than one chunk
/// are not cut off at the per-document limit, every word lies in the window
/// of some chunk.
pub proof fn law_chunks_cover_every_word(
    c: ChunkConfig,
    r: Seq<Seq<char>>,
    ws: Seq<Seq<char>>,
    j: int,
)
    requires
        is_word_chunking(r, ws, words_per_chunk(c), chunk_step(c), c.max_chunks_per_doc as nat),
        words_per_chunk(c) > 0,
        r.len() < c.max_chunks_per_doc,
        0 <= j < ws.len(),
    ensures
        exists|k: int|
            0 <= k < r.len() && #[trigger] window_covers(k, chunk_step(c), words_per_chunk(c), j),
{
    let step = chunk_step(c);
    let w = words_per_chunk(c);
    let n = r.len() as int;
    assert(step >= 1 && step <= w);
    assert(n > 0 && (n - 1) * step + w >= ws.len());
    let k0 = j / step as int;
    assert(k0 * step <= j < k0 * step + step) by (nonlinear_arith)
        requires
            step >= 1,
            j >= 0,
            k0 == j / step as int,
    ;
    if k0 < n {
        assert(0 <= k0);
        assert(window_covers(k0, step, w, j));
    } else {
        assert((n - 1) * step <= k0 * step) by (nonlinear_arith)
            requires
                n - 1 < k0,
                step >= 1,
        ;
        assert(window_covers(n - 1, step, w, j));
    }
}

/// Splits text into overlapping chunks for embedding.
pub fn chunk_text(content: &str, config: &ChunkConfig) -> (r: Vec<String>)
    ensures
        is_chunking_of(strs(r@), content@, *config),
{
    let t = trim_chars(chars_of(content).as_slice());
    let mut chunks: Vec<String> = Vec::new();
    if t.len() == 0 {
        return chunks;
    }
    if !utf8_len_exceeds(t.as_slice(), config.chunk_size) {
        chunks.push(string_from_chars(t.as_slice()));
        assert(strs(chunks@) =~= seq![t@]);
        return chunks;
    }
    let ws = split_whitespace(t.as_slice());
    let ghost wseq = seqs_of(ws@);
    proof {
        lemma_trim_first(content@);
        lemma_words_nonempty(t@);
    }
    let n = ws.len();
    let wpc = config.chunk_size / 5;
    let overlap_words = config.chunk_overlap / 5;
    let step: usize = if wpc > overlap_words {
        wpc - overlap_words
    } else {
        1
    };
    let max = config.max_chunks_per_doc;
    if wpc == 0 {
        assert(strs(chunks@).len() == 0);
        return chunks;
    }
    let mut start: usize = 0;
    while start < n && chunks.len() < max
        invariant
            wseq == seqs_of(ws@),
            wseq == words(trim(content@)),
            trim(content@).len() > 0,
            encode_utf8(trim(content@)).len() > config.chunk_size,
            wpc > 0,
            n > 0,
            n == ws@.len(),
            1 <= step <= wpc,
            wpc == words_per_chunk(*config),
            step == chunk_step(*config),
            max == config.max_chunks_per_doc,
            chunks@.len() <= max,
            start == chunks@.len() * step,
            forall|k: int|
                0 <= k < chunks@.len() ==> #[trigger] strs(chunks@)[k] == window_text(
                    wseq,
                    (k * step) as nat,
                    wpc as nat,
                ),
            forall|j: int|
                0 <= j < chunks@.len() ==> #[trigger] window_is_open(j, step as nat, wpc as nat, n as nat),
        decreases max - chunks@.len(),
    {
        let end: usize = if wpc <= n - start {
            start + wpc
        } else {
            n
        };
        let piece = join_range(&ws, start, end, ' ');
        let ghost k = chunks@.len();
        let ghost old_chunks = chunks@;
        assert(end < n ==> window_is_open(k as int, step as nat, wpc as nat, n as nat));
        chunks.push(string_from_chars(piece.as_slice()));
        assert(strs(chunks@) =~= strs(old_chunks).push(piece@));
        assert(piece@ == window_text(wseq, (k * step) as nat, wpc as nat));
        if end >= n {
            assert(is_word_chunking(strs(chunks@), wseq, wpc as nat, step as nat, max as nat));
            return chunks;
        }
        assert((k + 1) * step == k * step + step) by (nonlinear_arith);
        start = start + step;
    }
    proof {
        let k = chunks@.len();
        if k < max {
            assert(start >= n);
            if k == 0 {
                assert(k * step == 0) by (nonlinear_arith)
                    requires
                        k == 0,
                ;
            } else {
                assert(k * step == (k - 1) * step + step) by (nonlinear_arith)
                    requires
                        k > 0,
                ;
                let j = k - 1;
                assert(window_is_open(j, step as nat, wpc as nat, n as nat));
            }
            assert(false);
        }
        assert(is_word_chunking(strs(chunks@), wseq, wpc as nat, step as nat, max as nat));
    }
    chunks
}

} // verus!

verus! {

/// What SHA-256 gives for a byte string.
pub uninterp spec fn sha256(bytes: Seq<u8>) -> Seq<u8>;

/// `sha2::Sha256::digest`: the SHA-256 digest of the bytes; a digest is 32 bytes.
#[verifier::external_body]
fn sha256_digest(bytes: &[u8]) -> (d: Vec<u8>)
    ensures
        d@ == sha256(bytes@),
        d@.len() == 32,
{
    sha2::Sha256::digest(bytes).to_vec()
}

/// The lowercase hexadecimal digit for a value below sixteen.
pub open spec fn hex_digit(d: nat) -> char {
    if d < 10 {
        (d + 48) as char
    } else {
        (d + 87) as char
    }
}

/// Lowercase hexadecimal rendering of bytes, two digits per byte (`{:x}` on a digest).
pub open spec fn lower_hex(b: Seq<u8>) -> Seq<char>
    decreases b.len(),
{
    if b.len() == 0 {
        Seq::empty()
    } else {
        seq![hex_digit(b[0] as nat / 16), hex_digit(b[0] as nat % 16)] + lower_hex(b.drop_first())
    }
}

fn hex_char(d: u8) -> (c: char)
    requires
        d < 16,
    ensures
        c == hex_digit(d as nat),
{
    if d < 10 {
        (d + 48) as char
    } else {
        (d + 87) as char
    }
}

/// Renders bytes as lowercase hexadecimal.
pub fn to_lower_hex(b: &[u8]) -> (s: String)
    ensures
        s@ == lower_hex(b@),
{
    let mut out: Vec<char> = Vec::new();
    let mut i: usize = b.len();
    let mut tail: Vec<char> = Vec::new();
    // Build from the back so that each step matches the definition.
    assert(b@.skip(b@.len() as int) =~= Seq::<u8>::empty());
    while i > 0
        invariant
            i <= b@.len(),
            tail@ == lower_hex(b@.skip(i as int)),
        decreases i,
    {
        let x = b[i - 1];
        let mut next: Vec<char> = Vec::new();
        next.push(hex_char(x / 16));
        next.push(hex_char(x % 16));
        crate::text::push_all(&mut next, tail.as_slice());
        assert(b@.skip(i - 1).drop_first() =~= b@.skip(i as int));
        assert(b@.skip(i - 1)[0] == x);
        assert(next@ =~= lower_hex(b@.skip(i - 1)));
        tail = next;
        i = i - 1;
    }
    assert(b@.skip(0) =~= b@);
    crate::text::push_all(&mut out, tail.as_slice());
    string_from_chars(out.as_slice())
}

/// The content hash of a text: lowercase hex of the SHA-256 of its UTF-8 bytes.
pub open spec fn content_hash_of(content: Seq<char>) -> Seq<char> {
    lower_hex(sha256(encode_utf8(content)))
}

/// Hex rendering doubles the length and uses only lowercase hex digits.
pub proof fn lemma_lower_hex_shape(b: Seq<u8>)
    ensures
        lower_hex(b).len() == 2 * b.len(),
        forall|i: int| 0 <= i < lower_hex(b).len() ==> is_lower_hex(#[trigger] lower_hex(b)[i]),
    decreases b.len(),
{
    if b.len() > 0 {
        lemma_lower_hex_shape(b.drop_first());
        let hi = b[0] as nat / 16;
        let lo = b[0] as nat % 16;
        assert(hi < 16 && lo < 16);
        assert(is_lower_hex(hex_digit(hi)) && is_lower_hex(hex_digit(lo)));
        let rest = lower_hex(b.drop_first());
        assert forall|i: int| 0 <= i < lower_hex(b).len() implies is_lower_hex(
            #[trigger] lower_hex(b)[i],
        ) by {
            if i >= 2 {
                assert(lower_hex(b)[i] == rest[i - 2]);
            }
        }
    }
}

/// Hashes content for deduplication: 64 lowercase hex digits, the SHA-256 of
/// the content's UTF-8 bytes.
pub fn hash_content(content: &str) -> (h: String)
    ensures
        h@ == content_hash_of(content@),
        h@.len() == 64,
        forall|i: int| 0 <= i < 64 ==> is_lower_hex(#[trigger] h@[i]),
{
    let d = sha256_digest(content.as_bytes());
    proof {
        lemma_lower_hex_shape(d@);
    }
    to_lower_hex(d.as_slice())
}

/// A lowercase hexadecimal digit.
pub open spec fn is_lower_hex(c: char) -> bool {
    ('0' <= c <= '9') || ('a' <= c <= 'f')
}

/// The hyphenated lowercase form of a UUID: 36 characters, hyphens at 8, 13, 18
/// and 23, lowercase hexadecimal digits elsewhere.
pub open spec fn is_hyphenated_uuid(s: Seq<char>) -> bool {
    &&& s.len() == 36
    &&& forall|i: int|
        0 <= i < 36 ==> if i == 8 || i == 13 || i == 18 || i == 23 {
            #[trigger] s[i] == '-'
        } else {
            is_lower_hex(s[i])
        }
}

/// `uuid::Uuid::new_v4` shown with `Display`: a fresh random UUID in its
/// hyphenated lowercase form. Which UUID comes back is left open.
#[verifier::external_body]
fn new_uuid_text() -> (s: String)
    ensures
        is_hyphenated_uuid(s@),
{
    uuid::Uuid::new_v4().to_string()
}

/// A single chunk of a document, ready for embedding and retrieval.
#[derive(Debug, Clone)]
pub struct DocumentChunk {
    pub id: String,
    pub doc_id: String,
    pub chunk_index: usize,
    pub content: String,
    pub content_hash: String,
}

/// A chunk id: "chunk_", the document id, "_", then eight lowercase hex digits.
pub open spec fn is_chunk_id(id: Seq<char>, doc_id: Seq<char>) -> bool {
    &&& id.len() == doc_id.len() + 15
    &&& id == "chunk_"@ + doc_id + "_"@ + id.skip(id.len() - 8)
    &&& forall|i: int| id.len() - 8 <= i < id.len() ==> is_lower_hex(#[trigger] id[i])
}

/// The contents of a list of chunks.
pub open spec fn chunk_contents(cs: Seq<DocumentChunk>) -> Seq<Seq<char>> {
    cs.map_values(|c: DocumentChunk| c.content@)
}

/// Makes the chunks of a document: its text chunking, each chunk numbered, hashed
/// and given a fresh id.
pub fn create_chunks(doc_id: &str, content: &str, config: &ChunkConfig) -> (r: Vec<DocumentChunk>)
    ensures
        is_chunking_of(chunk_contents(r@), content@, *config),
        forall|i: int|
            0 <= i < r@.len() ==> {
                &&& (#[trigger] r@[i]).doc_id@ == doc_id@
                &&& r@[i].chunk_index == i
                &&& r@[i].content_hash@ == content_hash_of(r@[i].content@)
                &&& is_chunk_id(r@[i].id@, doc_id@)
            },
{
    let raw = chunk_text(content, config);
    let doc_chars = chars_of(doc_id);
    let mut out: Vec<DocumentChunk> = Vec::new();
    let mut i: usize = 0;
    while i < raw.len()
        invariant
            i <= raw@.len(),
            doc_chars@ == doc_id@,
            chunk_contents(out@) == strs(raw@).take(i as int),
            forall|k: int|
                0 <= k < out@.len() ==> {
                    &&& (#[trigger] out@[k]).doc_id@ == doc_id@
                    &&& out@[k].chunk_index == k
                    &&& out@[k].content_hash@ == content_hash_of(out@[k].content@)
                    &&& is_chunk_id(out@[k].id@, doc_id@)
                },
        decreases raw@.len() - i,
    {
        let tag = chars_of(new_uuid_text().as_str());
        let mut id = crate::text::lit("chunk_");
        crate::text::push_all(&mut id, doc_chars.as_slice());
        id.push('_');
        let ghost before_tag = id@;
        let mut k: usize = 0;
        while k < 8
            invariant
                k <= 8,
                tag@.len() == 36,
                is_hyphenated_uuid(tag@),
                id@ == before_tag + tag@.take(k as int),
            decreases 8 - k,
        {
            id.push(tag[k]);
            k = k + 1;
            assert(id@ =~= before_tag + tag@.take(k as int));
        }
        proof {
            reveal_strlit("_");
            reveal_strlit("chunk_");
            assert(before_tag =~= "chunk_"@ + doc_id@ + "_"@);
            assert(id@.skip(id@.len() - 8) =~= tag@.take(8));
            assert forall|m: int| id@.len() - 8 <= m < id@.len() implies is_lower_hex(
                #[trigger] id@[m],
            ) by {
                let j = m - (id@.len() - 8);
                assert(id@[m] == tag@[j]);
                assert(is_lower_hex(tag@[j]));
            }
            assert(id@ =~= "chunk_"@ + doc_id@ + "_"@ + id@.skip(id@.len() - 8));
            assert(is_chunk_id(id@, doc_id@));
        }
        let text = raw[i].clone();
        let hash = hash_content(text.as_str());
        let ghost old_out = out@;
        out.push(
            DocumentChunk {
                id: string_from_chars(id.as_slice()),
                doc_id: String::from_str(doc_id),
                chunk_index: i,
                content: text,
                content_hash: hash,
            },
        );
        assert(strs(raw@)[i as int] == raw@[i as int]@);
        assert(chunk_contents(out@) =~= chunk_contents(old_out).push(raw@[i as int]@));
        assert(chunk_contents(out@) =~= strs(raw@).take(i + 1));
        assert forall|m: int| 0 <= m < out@.len() implies {
            &&& (#[trigger] out@[m]).doc_id@ == doc_id@
            &&& out@[m].chunk_index == m
            &&& out@[m].content_hash@ == content_hash_of(out@[m].content@)
            &&& is_chunk_id(out@[m].id@, doc_id@)
        } by {
            if m < old_out.len() {
                assert(out@[m] == old_out[m]);
            }
        }
        i = i + 1;
    }
    assert(strs(raw@).take(raw@.len() as int) =~= strs(raw@));
    out
}

} // verus!

verus! {

/// The text outside XML tags, from a position with the given state: `<` opens a
/// tag, `>` closes it and adds a space unless the text so far ends in whitespace,
/// characters outside tags are kept.
pub open spec fn outside_tags(s: Seq<char>, in_tag: bool, last_was_space: bool) -> Seq<char>
    decreases s.len(),
{
    if s.len() == 0 {
        Seq::empty()
    } else {
        let c = s[0];
        let rest = s.drop_first();
        if c == '<' {
            outside_tags(rest, true, last_was_space)
        } else if c == '>' {
            if !last_was_space {
                seq![' '] + outside_tags(rest, false, true)
            } else {
                outside_tags(rest, false, last_was_space)
            }
        } else if !in_tag {
            seq![c] + outside_tags(rest, false, is_ws(c))
        } else {
            outside_tags(rest, in_tag, last_was_space)
        }
    }
}

/// The text of an XML document without its tags, words separated by single spaces.
pub open spec fn xml_text(xml: Seq<char>) -> Seq<char> {
    join(words(outside_tags(xml, false, true)), seq![' '])
}

/// Strips XML tags, returning only text content.
pub fn strip_xml_tags(xml: &str) -> (r: String)
    ensures
        r@ == xml_text(xml@),
{
    let s = chars_of(xml);
    let mut result: Vec<char> = Vec::new();
    let mut in_tag = false;
    let mut last_was_space = true;
    let mut i: usize = 0;
    assert(s@.skip(0) =~= s@);
    while i < s.len()
        invariant
            i <= s@.len(),
            result@ + outside_tags(s@.skip(i as int), in_tag, last_was_space) == outside_tags(
                s@,
                false,
                true,
            ),
        decreases s@.len() - i,
    {
        let c = s[i];
        let ghost rest = s@.skip(i as int);
        assert(rest[0] == c);
        assert(rest.drop_first() =~= s@.skip(i + 1));
        let ghost before = result@;
        if c == '<' {
            in_tag = true;
        } else if c == '>' {
            in_tag = false;
            if !last_was_space {
                result.push(' ');
                last_was_space = true;
                assert(result@ + outside_tags(s@.skip(i + 1), in_tag, last_was_space) =~= before
                    + (seq![' '] + outside_tags(s@.skip(i + 1), false, true)));
            }
        } else if !in_tag {
            result.push(c);
            last_was_space = is_whitespace(c);
            assert(result@ + outside_tags(s@.skip(i + 1), in_tag, last_was_space) =~= before
                + (seq![c] + outside_tags(s@.skip(i + 1), false, is_ws(c))));
        }
        i = i + 1;
    }
    assert(s@.skip(s@.len() as int) =~= Seq::<char>::empty());
    assert(result@ =~= outside_tags(s@, false, true));
    let ws = split_whitespace(result.as_slice());
    let joined = join_range(&ws, 0, ws.len(), ' ');
    assert(seqs_of(ws@).subrange(0, ws@.len() as int) =~= seqs_of(ws@));
    string_from_chars(joined.as_slice())
}

/// The contents of the `open ... > ... close` elements of `xml`, searching from
/// index `from`: each time the next `open`, the `>` that ends it, and the next
/// `close` after that; the search stops where one of them is missing.
pub open spec fn xml_values_from(xml: Seq<char>, open: Seq<char>, close: Seq<char>, from: int) -> Seq<
    Seq<char>,
>
    decreases xml.len() + 1 - from,
{
    if from < 0 {
        Seq::empty()
    } else {
        match find_from(xml, open, from) {
            None => Seq::empty(),
            Some(a) => match find_from(xml, seq!['>'], a) {
                None => Seq::empty(),
                Some(g) => match find_from(xml, close, g + 1) {
                    None => Seq::empty(),
                    Some(e) => {
                        proof {
                            lemma_find_from(xml, open, from);
                            lemma_find_from(xml, seq!['>'], a);
                            lemma_find_from(xml, close, g + 1);
                        }
                        seq![xml.subrange(g + 1, e)] + xml_values_from(
                            xml,
                            open,
                            close,
                            e + close.len(),
                        )
                    },
                },
            },
        }
    }
}

/// The contents of all `<tag ...>...</tag>` elements of the document, in order.
pub open spec fn xml_values(xml: Seq<char>, tag: Seq<char>) -> Seq<Seq<char>> {
    xml_values_from(xml, seq!['<'] + tag, seq!['<', '/'] + tag + seq!['>'], 0)
}

/// Extracts the contents of the given XML element, in document order (a simple scan).
pub fn extract_xml_values(xml: &str, tag: &str) -> (r: Vec<String>)
    ensures
        strs(r@) == xml_values(xml@, tag@),
{
    let s = chars_of(xml);
    let t = chars_of(tag);
    let mut open: Vec<char> = Vec::new();
    open.push('<');
    push_all(&mut open, t.as_slice());
    let mut close: Vec<char> = Vec::new();
    close.push('<');
    close.push('/');
    push_all(&mut close, t.as_slice());
    close.push('>');
    let mut gt: Vec<char> = Vec::new();
    gt.push('>');
    assert(open@ =~= seq!['<'] + tag@);
    assert(close@ =~= seq!['<', '/'] + tag@ + seq!['>']);
    assert(gt@ =~= seq!['>']);
    let mut results: Vec<String> = Vec::new();
    let mut search_from: usize = 0;
    while search_from <= s.len()
        invariant
            strs(results@) + xml_values_from(s@, open@, close@, search_from as int) == xml_values(
                xml@,
                tag@,
            ),
            s@ == xml@,
            open@ == seq!['<'] + tag@,
            close@ == seq!['<', '/'] + tag@ + seq!['>'],
            gt@ == seq!['>'],
        decreases s@.len() + 1 - search_from,
    {
        let start = match find_chars(s.as_slice(), open.as_slice(), search_from) {
            Some(a) => a,
            None => {
                assert(strs(results@) =~= strs(results@) + Seq::<Seq<char>>::empty());
                return results;
            },
        };
        let gt_pos = match find_chars(s.as_slice(), gt.as_slice(), start) {
            Some(g) => g,
            None => {
                assert(strs(results@) =~= strs(results@) + Seq::<Seq<char>>::empty());
                return results;
            },
        };
        proof {
            lemma_find_from(s@, open@, search_from as int);
            lemma_find_from(s@, gt@, start as int);
        }
        let content_start = gt_pos + 1;
        let end = match find_chars(s.as_slice(), close.as_slice(), content_start) {
            Some(e) => e,
            None => {
                assert(strs(results@) =~= strs(results@) + Seq::<Seq<char>>::empty());
                return results;
            },
        };
        proof {
            lemma_find_from(s@, close@, content_start as int);
        }
        let mut piece: Vec<char> = Vec::new();
        let mut k: usize = content_start;
        while k < end
            invariant
                content_start <= k <= end <= s@.len(),
                piece@ == s@.subrange(content_start as int, k as int),
            decreases end - k,
        {
            piece.push(s[k]);
            k = k + 1;
            assert(piece@ =~= s@.subrange(content_start as int, k as int));
        }
        let ghost old_results = results@;
        results.push(string_from_chars(piece.as_slice()));
        assert(strs(results@) =~= strs(old_results).push(piece@));
        assert(strs(results@) + xml_values_from(s@, open@, close@, (end + close.len()) as int)
            =~= strs(old_results) + xml_values_from(s@, open@, close@, search_from as int));
        search_from = end + close.len();
    }
    assert(xml_values_from(s@, open@, close@, search_from as int) == Seq::<Seq<char>>::empty())
        by {
        assert(find_from(s@, open@, search_from as int) is None);
    }
    assert(strs(results@) =~= strs(results@) + Seq::<Seq<char>>::empty());
    results
}

} // verus!

verus! {

#[verifier::external_type_specification]
#[verifier::external_body]
#[verifier::reject_recursive_types(T)]
pub struct ExCursor<T>(std::io::Cursor<T>);

#[verifier::external_type_specification]
#[verifier::external_body]
#[verifier::reject_recursive_types(R)]
pub struct ExZipArchive<R>(zip::ZipArchive<R>);

/// A ZIP archive read from bytes held in memory.
pub type MemoryZip = zip::ZipArchive<std::io::Cursor<Vec<u8>>>;

/// What the entries of a ZIP archive read back as: for each name that the archive
/// finds, the text that reading it as UTF-8 yields, and the message of the read's
/// error (`None` when the read succeeded).
pub uninterp spec fn zip_entries(archive: MemoryZip) -> Map<Seq<char>, (Seq<char>, Option<Seq<char>>)>;

/// What `zip::ZipArchive::new` makes of the bytes: nothing when they are not a
/// readable archive, else its entries read as in `zip_entries`.
pub uninterp spec fn zip_archive(bytes: Seq<u8>) -> Option<Map<Seq<char>, (Seq<char>, Option<Seq<char>>)>>;

/// The message (`Display`) of the error `zip::ZipArchive::new` gives for bytes
/// that are not a readable archive.
pub uninterp spec fn zip_open_error(bytes: Seq<u8>) -> Seq<char>;

/// `zip::ZipArchive::new` over an in-memory copy of the bytes, its error shown
/// with `Display`. It succeeds exactly when the crate's `zip_archive` of the
/// bytes exists, and then holds those entries; otherwise its message is the
/// crate's `zip_open_error` of the bytes.
#[verifier::external_body]
fn open_zip(bytes: &[u8]) -> (r: Result<MemoryZip, String>)
    ensures
        r is Ok <==> zip_archive(bytes@) is Some,
        r matches Ok(a) ==> zip_entries(a) == zip_archive(bytes@)->0,
        r matches Err(e) ==> e@ == zip_open_error(bytes@),
{
    zip::ZipArchive::new(std::io::Cursor::new(bytes.to_vec())).map_err(|e| e.to_string())
}

/// The outcome of reading one entry of an archive.
pub enum ZipEntry {
    /// The archive has no readable entry of that name.
    Missing,
    /// The whole entry, as text.
    Text(String),
    /// The read failed; the text read before the failure, and the failure's message.
    Partial(String, String),
}

/// `zip::ZipArchive::by_name`, then `read_to_string` on the entry. The entry is
/// missing exactly when `zip_entries` has no such name; otherwise the text and
/// the error's message are those that `zip_entries` records. The archive's
/// entries do not change.
#[verifier::external_body]
fn read_zip_entry(archive: &mut MemoryZip, name: &str) -> (r: ZipEntry)
    ensures
        zip_entries(*final(archive)) == zip_entries(*old(archive)),
        r is Missing <==> !zip_entries(*old(archive)).dom().contains(name@),
        r matches ZipEntry::Text(t) ==> zip_entries(*old(archive))[name@] == (
            t@,
            None::<Seq<char>>,
        ),
        r matches ZipEntry::Partial(t, e) ==> zip_entries(*old(archive))[name@] == (t@, Some(e@)),
{
    match archive.by_name(name) {
        Err(_) => ZipEntry::Missing,
        Ok(mut file) => {
            let mut text = String::new();
            match file.read_to_string(&mut text) {
                Ok(_) => ZipEntry::Text(text),
                Err(e) => ZipEntry::Partial(text, e.to_string()),
            }
        },
    }
}

/// The message (`Display`) of the error `String::from_utf8` gives for bytes that
/// are not valid UTF-8.
pub uninterp spec fn utf8_error_text(bytes: Seq<u8>) -> Seq<char>;

/// `String::from_utf8`, its error shown with `Display`: succeeds exactly on valid
/// UTF-8 and then holds the decoded characters; otherwise its message is the
/// crate's `utf8_error_text` of the bytes.
#[verifier::external_body]
fn decode_utf8_text(bytes: &[u8]) -> (r: Result<String, String>)
    ensures
        r is Ok <==> vstd::utf8::valid_utf8(bytes@),
        r matches Ok(t) ==> t@ == vstd::utf8::decode_utf8(bytes@),
        r matches Err(e) ==> e@ == utf8_error_text(bytes@),
{
    String::from_utf8(bytes.to_vec()).map_err(|e| e.to_string())
}

/// A `Result<String, String>` viewed as characters.
pub open spec fn text_outcome(r: Result<String, String>) -> Result<Seq<char>, Seq<char>> {
    match r {
        Ok(t) => Ok(t@),
        Err(e) => Err(e@),
    }
}

/// Decodes bytes as UTF-8; an error's message is `prefix` and the decoder's message.
fn decode_with_context(bytes: &[u8], prefix: &str) -> (r: Result<String, String>)
    ensures
        is_utf8_extraction(bytes@, r, prefix@),
{
    match decode_utf8_text(bytes) {
        Ok(t) => Ok(t),
        Err(e) => Err(prefixed(prefix, e.as_str())),
    }
}

/// `prefix` followed by `detail`.
fn prefixed(prefix: &str, detail: &str) -> (s: String)
    ensures
        s@ == prefix@ + detail@,
        starts_with(s@, prefix@),
{
    assert((prefix@ + detail@).take(prefix@.len() as int) =~= prefix@);
    let mut m = chars_of(prefix);
    push_all(&mut m, chars_of(detail).as_slice());
    string_from_chars(m.as_slice())
}

/// What extracting a DOCX from `bytes` returns: an error with the archive's
/// message when it does not open, an error when `word/document.xml` is missing,
/// an error with the read's message when it is unreadable, else the document's text.
pub open spec fn is_docx_extraction(bytes: Seq<u8>, r: Result<String, String>) -> bool {
    match zip_archive(bytes) {
        None => text_outcome(r) == Err::<Seq<char>, Seq<char>>(
            "Failed to open DOCX as ZIP: "@ + zip_open_error(bytes),
        ),
        Some(m) => if !m.dom().contains("word/document.xml"@) {
            text_outcome(r) == Err::<Seq<char>, Seq<char>>("No word/document.xml found in DOCX"@)
        } else {
            match m["word/document.xml"@].1 {
                Some(e) => text_outcome(r) == Err::<Seq<char>, Seq<char>>(
                    "Failed to read document.xml: "@ + e,
                ),
                None => text_outcome(r) == Ok::<Seq<char>, Seq<char>>(
                    xml_text(m["word/document.xml"@].0),
                ),
            }
        },
    }
}

/// Extracts text from a DOCX (Office Open XML) document.
pub fn extract_docx_text(bytes: &[u8]) -> (r: Result<String, String>)
    ensures
        is_docx_extraction(bytes@, r),
{
    let mut archive = match open_zip(bytes) {
        Ok(a) => a,
        Err(e) => {
            return Err(prefixed("Failed to open DOCX as ZIP: ", e.as_str()));
        },
    };
    match read_zip_entry(&mut archive, "word/document.xml") {
        ZipEntry::Missing => Err(String::from_str("No word/document.xml found in DOCX")),
        ZipEntry::Partial(_, e) => Err(prefixed("Failed to read document.xml: ", e.as_str())),
        ZipEntry::Text(doc_xml) => Ok(strip_xml_tags(doc_xml.as_str())),
    }
}

/// The text of one spreadsheet cell value: the shared string it points at when it
/// is an index into the shared strings, else the value itself.
pub open spec fn cell_text(value: Seq<char>, shared: Seq<Seq<char>>) -> Seq<char> {
    match crate::text::unsigned_value(value) {
        Some(i) => if i < shared.len() && i <= usize::MAX {
            shared[i as int]
        } else {
            value
        },
        None => value,
    }
}

/// The cells' texts, each followed by a tab.
pub open spec fn sheet_text(values: Seq<Seq<char>>, shared: Seq<Seq<char>>) -> Seq<char>
    decreases values.len(),
{
    if values.len() == 0 {
        Seq::empty()
    } else {
        sheet_text(values.drop_last(), shared) + cell_text(values.last(), shared) + seq!['\t']
    }
}

/// The text of an entry as read, whether or not the read completed; empty when missing.
pub open spec fn entry_text(entries: Map<Seq<char>, (Seq<char>, Option<Seq<char>>)>, name: Seq<char>) -> Seq<
    char,
> {
    if entries.dom().contains(name) {
        entries[name].0
    } else {
        Seq::empty()
    }
}

/// What extracting an XLSX yields from its archive's entries: the cells of the
/// first sheet, shared strings substituted, each followed by a tab.
pub open spec fn xlsx_sheet_text(entries: Map<Seq<char>, (Seq<char>, Option<Seq<char>>)>) -> Seq<char> {
    let shared = xml_values(entry_text(entries, "xl/sharedStrings.xml"@), "t"@);
    sheet_text(xml_values(entry_text(entries, "xl/worksheets/sheet1.xml"@), "v"@), shared)
}

fn read_entry_lenient(archive: &mut MemoryZip, name: &str) -> (r: String)
    ensures
        zip_entries(*final(archive)) == zip_entries(*old(archive)),
        r@ == entry_text(zip_entries(*old(archive)), name@),
{
    match read_zip_entry(archive, name) {
        ZipEntry::Missing => String::new(),
        ZipEntry::Text(t) => t,
        ZipEntry::Partial(t, _) => t,
    }
}

/// What extracting an XLSX from `bytes` returns: an error with the archive's
/// message when it does not open; else the sheet's text, or an error when that is empty.
pub open spec fn is_xlsx_extraction(bytes: Seq<u8>, r: Result<String, String>) -> bool {
    match zip_archive(bytes) {
        None => text_outcome(r) == Err::<Seq<char>, Seq<char>>(
            "Failed to open XLSX as ZIP: "@ + zip_open_error(bytes),
        ),
        Some(m) => text_outcome(r) == (if xlsx_sheet_text(m).len() == 0 {
            Err::<Seq<char>, Seq<char>>("No sheet data found in XLSX"@)
        } else {
            Ok(xlsx_sheet_text(m))
        }),
    }
}

/// Extracts text from an XLSX (Office Open XML spreadsheet).
pub fn extract_xlsx_text(bytes: &[u8]) -> (r: Result<String, String>)
    ensures
        is_xlsx_extraction(bytes@, r),
{
    let mut archive = match open_zip(bytes) {
        Ok(a) => a,
        Err(e) => {
            return Err(prefixed("Failed to open XLSX as ZIP: ", e.as_str()));
        },
    };
    let shared_xml = read_entry_lenient(&mut archive, "xl/sharedStrings.xml");
    let shared_strings = extract_xml_values(shared_xml.as_str(), "t");
    let sheet_xml = read_entry_lenient(&mut archive, "xl/worksheets/sheet1.xml");
    let values = extract_xml_values(sheet_xml.as_str(), "v");
    let ghost sh = strs(shared_strings@);
    let ghost vs = strs(values@);
    let mut output: Vec<char> = Vec::new();
    let mut i: usize = 0;
    while i < values.len()
        invariant
            i <= values@.len(),
            sh == strs(shared_strings@),
            vs == strs(values@),
            output@ == sheet_text(vs.take(i as int), sh),
        decreases values@.len() - i,
    {
        let val = chars_of(values[i].as_str());
        assert(vs[i as int] == values@[i as int]@);
        let idx = crate::text::parse_unsigned(val.as_slice(), usize::MAX as u64);
        let mut used_shared = false;
        if let Some(n) = idx {
            let n = n as usize;
            if n < shared_strings.len() {
                assert(sh[n as int] == shared_strings@[n as int]@);
                push_all(&mut output, chars_of(shared_strings[n].as_str()).as_slice());
                used_shared = true;
            }
        }
        if !used_shared {
            push_all(&mut output, val.as_slice());
        }
        output.push('\t');
        assert(vs.take(i + 1).drop_last() =~= vs.take(i as int));
        assert(vs.take(i + 1).last() == vs[i as int]);
        assert(output@ =~= sheet_text(vs.take(i + 1), sh));
        i = i + 1;
    }
    assert(vs.take(values@.len() as int) =~= vs);
    if output.len() == 0 {
        Err(String::from_str("No sheet data found in XLSX"))
    } else {
        Ok(string_from_chars(output.as_slice()))
    }
}

/// What a PDF's text extraction reports, as the library hands it on: the text,
/// or the error with `PDF extraction error: ` before it.
pub open spec fn pdf_text_outcome(outcome: Result<String, String>) -> Result<Seq<char>, Seq<char>> {
    match outcome {
        Ok(t) => Ok(t@),
        Err(e) => Err("PDF extraction error: "@ + e@),
    }
}

/// The result of extracting a PDF's text, given what the PDF extractor
/// (`pdf_extract::extract_text_from_mem`, run by the caller) reported: its
/// text, or its error's message.
pub fn extract_pdf_text(outcome: Result<String, String>) -> (r: Result<String, String>)
    ensures
        text_outcome(r) == pdf_text_outcome(outcome),
{
    match outcome {
        Ok(t) => Ok(t),
        Err(e) => Err(prefixed("PDF extraction error: ", e.as_str())),
    }
}

} // verus!

verus! {

/// Text decoded from UTF-8 bytes, or an error: `prefix` and the decoder's message.
pub open spec fn is_utf8_extraction(bytes: Seq<u8>, r: Result<String, String>, prefix: Seq<char>) -> bool {
    if vstd::utf8::valid_utf8(bytes) {
        text_outcome(r) == Ok::<Seq<char>, Seq<char>>(vstd::utf8::decode_utf8(bytes))
    } else {
        text_outcome(r) == Err::<Seq<char>, Seq<char>>(prefix + utf8_error_text(bytes))
    }
}

/// A file whose text is read by the PDF extractor, by its lowercased name: it
/// ends in `.pdf` and in none of the extensions tested before.
pub open spec fn is_pdf_name(lower_name: Seq<char>) -> bool {
    !(ends_with(lower_name, ".txt"@) || ends_with(lower_name, ".log"@) || ends_with(lower_name, ".md"@)
        || ends_with(lower_name, ".csv"@) || ends_with(lower_name, ".docx"@) || ends_with(
        lower_name,
        ".xlsx"@,
    )) && ends_with(lower_name, ".pdf"@)
}

/// What extracting text from a file that is not a PDF returns, by the
/// extension of its lowercased name: plain text (.txt, .log, .md) and CSV are
/// decoded as UTF-8; DOCX and XLSX go to their extractors; anything else is
/// decoded as UTF-8, and where that fails the file type is reported unsupported.
pub open spec fn is_other_extraction(
    lower_name: Seq<char>,
    filename: Seq<char>,
    bytes: Seq<u8>,
    r: Result<String, String>,
) -> bool {
    if ends_with(lower_name, ".txt"@) || ends_with(lower_name, ".log"@) || ends_with(
        lower_name,
        ".md"@,
    ) {
        is_utf8_extraction(bytes, r, "UTF-8 decode error: "@)
    } else if ends_with(lower_name, ".csv"@) {
        is_utf8_extraction(bytes, r, "CSV decode error: "@)
    } else if ends_with(lower_name, ".docx"@) {
        is_docx_extraction(bytes, r)
    } else if ends_with(lower_name, ".xlsx"@) {
        is_xlsx_extraction(bytes, r)
    } else if vstd::utf8::valid_utf8(bytes) {
        text_outcome(r) == Ok::<Seq<char>, Seq<char>>(vstd::utf8::decode_utf8(bytes))
    } else {
        text_outcome(r) == Err::<Seq<char>, Seq<char>>("Unsupported file type: "@ + filename)
    }
}

/// What extracting text from a file returns: for a PDF, what its extractor
/// reported (nothing when no report is given); for any other file, its
/// extraction by type.
pub open spec fn is_text_extraction(
    lower_name: Seq<char>,
    filename: Seq<char>,
    bytes: Seq<u8>,
    pdf_text: Option<Result<String, String>>,
    r: Option<Result<String, String>>,
) -> bool {
    if is_pdf_name(lower_name) {
        match pdf_text {
            Some(o) => r matches Some(x) && text_outcome(x) == pdf_text_outcome(o),
            None => r is None,
        }
    } else {
        r matches Some(x) && is_other_extraction(lower_name, filename, bytes, x)
    }
}

/// Each file type goes to its own extractor: by the first of the extensions
/// `.txt`/`.log`/`.md`, `.csv`, `.docx`, `.xlsx`, `.pdf` that the lowercased name
/// ends in, the text is decoded as UTF-8 (with that type's error prefix), read
/// from the DOCX document, read from the XLSX sheet, or taken from the PDF
/// extractor's report; any other file is decoded as UTF-8 or refused as unsupported.
pub proof fn law_extraction_follows_extension(
    lower_name: Seq<char>,
    filename: Seq<char>,
    bytes: Seq<u8>,
    pdf_text: Option<Result<String, String>>,
    r: Option<Result<String, String>>,
)
    requires
        is_text_extraction(lower_name, filename, bytes, pdf_text, r),
    ensures
        ({
            let plain = ends_with(lower_name, ".txt"@) || ends_with(lower_name, ".log"@) || ends_with(
                lower_name,
                ".md"@,
            );
            let csv = ends_with(lower_name, ".csv"@);
            let docx = ends_with(lower_name, ".docx"@);
            let xlsx = ends_with(lower_name, ".xlsx"@);
            let pdf = ends_with(lower_name, ".pdf"@);
            &&& plain ==> (r matches Some(x) && is_utf8_extraction(bytes, x, "UTF-8 decode error: "@))
            &&& !plain && csv ==> (r matches Some(x) && is_utf8_extraction(bytes, x, "CSV decode error: "@))
            &&& !plain && !csv && docx ==> (r matches Some(x) && is_docx_extraction(bytes, x))
            &&& !plain && !csv && !docx && xlsx ==> (r matches Some(x) && is_xlsx_extraction(bytes, x))
            &&& !plain && !csv && !docx && !xlsx && pdf ==> match pdf_text {
                Some(o) => r matches Some(x) && text_outcome(x) == pdf_text_outcome(o),
                None => r is None,
            }
            &&& !plain && !csv && !docx && !xlsx && !pdf ==> (r matches Some(x) && (
            vstd::utf8::valid_utf8(bytes) ==> text_outcome(x) == Ok::<Seq<char>, Seq<char>>(
                vstd::utf8::decode_utf8(bytes),
            )) && (!vstd::utf8::valid_utf8(bytes) ==> text_outcome(x) == Err::<
                Seq<char>,
                Seq<char>,
            >("Unsupported file type: "@ + filename)))
        }),
{
}

/// Extracts text from a file's bytes given its lowercased name. A PDF's text
/// is what its extractor reported, handed in as `pdf_text`; the result is
/// `None` only for a PDF without that report.
pub fn extract_by_lowercase_name(
    lower_name: &[char],
    filename: &str,
    bytes: &[u8],
    pdf_text: Option<Result<String, String>>,
) -> (r: Option<Result<String, String>>)
    ensures
        is_text_extraction(lower_name@, filename@, bytes@, pdf_text, r),
{
    let ends = |suffix: &str| -> (b: bool)
        ensures
            b == ends_with(lower_name@, suffix@),
        { ends_with_chars(lower_name, chars_of(suffix).as_slice()) };
    if ends(".txt") || ends(".log") || ends(".md") {
        Some(decode_with_context(bytes, "UTF-8 decode error: "))
    } else if ends(".csv") {
        Some(decode_with_context(bytes, "CSV decode error: "))
    } else if ends(".docx") {
        Some(extract_docx_text(bytes))
    } else if ends(".xlsx") {
        Some(extract_xlsx_text(bytes))
    } else if ends(".pdf") {
        match pdf_text {
            Some(o) => Some(extract_pdf_text(o)),
            None => None,
        }
    } else {
        match decode_utf8_text(bytes) {
            Ok(t) => Some(Ok(t)),
            Err(_) => Some(Err(prefixed("Unsupported file type: ", filename))),
        }
    }
}

/// Whether a file's text is read by the PDF extractor, by its name.
pub fn needs_pdf_text(filename: &str) -> (b: bool)
    ensures
        b == is_pdf_name(lowercase(filename@)),
        is_ascii_text(filename@) ==> b == is_pdf_name(ascii_lowercase(filename@)),
{
    let lower = to_lowercase(chars_of(filename).as_slice());
    let ends = |suffix: &str| -> (b: bool)
        ensures
            b == ends_with(lower@, suffix@),
        { ends_with_chars(lower.as_slice(), chars_of(suffix).as_slice()) };
    !(ends(".txt") || ends(".log") || ends(".md") || ends(".csv") || ends(".docx") || ends(".xlsx"))
        && ends(".pdf")
}

/// Extracts text content from raw file bytes based on the file type. The
/// text of a PDF comes from its extractor's report, handed in as `pdf_text`
/// (see `needs_pdf_text`); without it the result for a PDF is `None`.
pub fn extract_text_content(filename: &str, bytes: &[u8], pdf_text: Option<Result<String, String>>) -> (r:
    Option<Result<String, String>>)
    ensures
        is_text_extraction(lowercase(filename@), filename@, bytes@, pdf_text, r),
        is_ascii_text(filename@) ==> is_text_extraction(
            ascii_lowercase(filename@),
            filename@,
            bytes@,
            pdf_text,
            r,
        ),
{
    let lower = to_lowercase(chars_of(filename).as_slice());
    extract_by_lowercase_name(lower.as_slice(), filename, bytes, pdf_text)
}

} // verus!
