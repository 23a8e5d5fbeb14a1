//! The parts of the vector embedding service that are not arithmetic on
//! floating-point vectors: how a document is cut into overlapping chunks,
//! how long the vectors of a model are, and the client and rate-limit
//! records of the language-model service.

use vstd::prelude::*;
use crate::text::{all_whitespace, chars_of, copy_chars, is_blank, string_from_chars, str_eq};

verus! {

/// A piece of a document: its text, where it starts and ends (in
/// characters) and its position among the kept pieces.
#[derive(Debug, Clone)]
pub struct DocumentChunk {
    pub text: String,
    pub start_char: usize,
    pub end_char: usize,
    pub chunk_index: usize,
}

/// A client of a language-model service.
#[derive(Debug, Clone)]
pub struct LLMApiClient {
    pub api_key: String,
    pub base_url: String,
    pub model: String,
    pub rate_limiter: Option<RateLimiter>,
}

/// Requests allowed per minute and those made in the current window.
#[derive(Debug, Clone)]
pub struct RateLimiter {
    pub requests_per_minute: u32,
    pub current_requests: u32,
    pub window_start: std::time::Instant,
}

/// The length of the vectors a model produces.
pub open spec fn spec_embedding_dimension(model: Seq<char>) -> nat {
    if model == "text-embedding-3-large"@ { 3072 } else { 1536 }
}

/// The length of the vectors a model produces: 3072 for
/// `text-embedding-3-large`, 1536 for the others.
pub fn embedding_dimension(model: &str) -> (r: usize)
    ensures
        r == spec_embedding_dimension(model@),
{
    if str_eq(model, "text-embedding-3-large") { 3072 } else { 1536 }
}

/// Where the next chunk starts: `overlap` characters before the end of the
/// current one, or one character on where that would not move forward.
pub open spec fn next_start(start: nat, chunk_size: nat, overlap: nat) -> nat {
    if start + chunk_size > overlap { (start + chunk_size - overlap) as nat } else { start + 1 }
}

/// The end of the chunk starting at `start`.
pub open spec fn chunk_end(n: nat, start: nat, chunk_size: nat) -> nat {
    if start + chunk_size < n { start + chunk_size } else { n }
}

/// The chunks of `chars` from `start` on, numbered from `index`: text,
/// start, end and number of each chunk that is not all white space.
pub open spec fn chunks_from(chars: Seq<char>, start: nat, chunk_size: nat, overlap: nat, index: nat)
    -> Seq<(Seq<char>, nat, nat, nat)>
    decreases chars.len() - start,
{
    if start >= chars.len() {
        Seq::empty()
    } else {
        let end = chunk_end(chars.len(), start, chunk_size);
        let piece = chars.subrange(start as int, end as int);
        let kept = !all_whitespace(piece);
        let here = if kept { seq![(piece, start, end, index)] } else { Seq::empty() };
        let index2 = if kept { index + 1 } else { index };
        if end >= chars.len() {
            here
        } else {
            let nx = next_start(start, chunk_size, overlap);
            if nx > start {
                here + chunks_from(chars, nx, chunk_size, overlap, index2)
            } else {
                here
            }
        }
    }
}

/// The chunks of a text: pieces of `chunk_size` characters, each starting
/// `overlap` characters before the previous one ended, the pieces of only
/// white space left out.
pub open spec fn spec_chunks(text: Seq<char>, chunk_size: nat, overlap: nat) -> Seq<(Seq<char>, nat, nat, nat)> {
    chunks_from(text, 0, chunk_size, overlap, 0)
}

/// Whether cutting a text ends: the chunks move forward when they are
/// longer than the overlap, and otherwise the text is short enough to be
/// reached before they would move back.
pub open spec fn chunking_ends(n: nat, chunk_size: nat, overlap: nat) -> bool {
    chunk_size > overlap || n <= overlap + 1
}

/// The view of a chunk.
pub open spec fn chunk_view(c: DocumentChunk) -> (Seq<char>, nat, nat, nat) {
    (c.text@, c.start_char as nat, c.end_char as nat, c.chunk_index as nat)
}

/// Cuts a text into overlapping chunks of `chunk_size` characters.
pub fn chunk_document(text: &str, chunk_size: usize, overlap: usize) -> (r: Vec<DocumentChunk>)
    requires
        chunking_ends(text@.len(), chunk_size as nat, overlap as nat),
        text@.len() + chunk_size <= usize::MAX,
    ensures
        r@.map_values(|c: DocumentChunk| chunk_view(c)) == spec_chunks(text@, chunk_size as nat, overlap as nat),
{
    let chars = chars_of(text);
    let n = chars.len();
    let mut chunks: Vec<DocumentChunk> = Vec::new();
    if n == 0 {
        assert(chunks@.map_values(|c: DocumentChunk| chunk_view(c)) =~= spec_chunks(text@, chunk_size as nat, overlap as nat));
        return chunks;
    }
    let mut start: usize = 0;
    let mut index: usize = 0;
    while start < n
        invariant
            chars@ == text@,
            n == chars@.len(),
            start <= n,
            index <= start,
            index == chunks@.len(),
            chunking_ends(n as nat, chunk_size as nat, overlap as nat),
            n + chunk_size <= usize::MAX,
            chunks@.map_values(|c: DocumentChunk| chunk_view(c))
                + chunks_from(chars@, start as nat, chunk_size as nat, overlap as nat, index as nat)
                == spec_chunks(text@, chunk_size as nat, overlap as nat),
        decreases n - start,
    {
        let end: usize = if start + chunk_size < n { start + chunk_size } else { n };
        let piece = copy_chars(&chars, start, end);
        let ghost before = chunks@.map_values(|c: DocumentChunk| chunk_view(c));
        let ghost rest = chunks_from(chars@, start as nat, chunk_size as nat, overlap as nat, index as nat);
        let blank = is_blank(&piece);
        if !blank {
            chunks.push(DocumentChunk {
                text: string_from_chars(&piece),
                start_char: start,
                end_char: end,
                chunk_index: index,
            });
            index = index + 1;
        }
        let ghost after = chunks@.map_values(|c: DocumentChunk| chunk_view(c));
        let ghost here: Seq<(Seq<char>, nat, nat, nat)> = if !blank {
            seq![(piece@, start as nat, end as nat, (index - 1) as nat)]
        } else {
            Seq::empty()
        };
        assert(after =~= before + here);
        if end >= n {
            assert(rest =~= here);
            assert(after =~= before + rest);
            return chunks;
        }
        let nx: usize = if start + chunk_size > overlap { start + chunk_size - overlap } else { start + 1 };
        assert(nx > start);
        assert(rest == here + chunks_from(chars@, nx as nat, chunk_size as nat, overlap as nat, index as nat));
        assert(after + chunks_from(chars@, nx as nat, chunk_size as nat, overlap as nat, index as nat)
            =~= before + rest);
        start = nx;
    }
    assert(chunks@.map_values(|c: DocumentChunk| chunk_view(c)) =~= spec_chunks(text@, chunk_size as nat, overlap as nat));
    chunks
}

} // verus!

verus! {

/// Every chunk is a non-blank piece of the text, at most `chunk_size`
/// characters long, at the place it names; the chunks are numbered in
/// order from `index` and start ever later in the text.
pub proof fn law_chunks_are_pieces(chars: Seq<char>, start: nat, chunk_size: nat, overlap: nat, index: nat)
    ensures
        forall|i: int| 0 <= i < chunks_from(chars, start, chunk_size, overlap, index).len() ==> {
            let c = #[trigger] chunks_from(chars, start, chunk_size, overlap, index)[i];
            &&& start <= c.1 < c.2 <= chars.len()
            &&& c.2 - c.1 <= chunk_size
            &&& c.0 == chars.subrange(c.1 as int, c.2 as int)
            &&& !all_whitespace(c.0)
            &&& c.3 == index + i
        },
        forall|i: int, j: int| 0 <= i < j < chunks_from(chars, start, chunk_size, overlap, index).len() ==>
            (#[trigger] chunks_from(chars, start, chunk_size, overlap, index)[i]).1
                < (#[trigger] chunks_from(chars, start, chunk_size, overlap, index)[j]).1,
    decreases chars.len() - start,
{
    let r = chunks_from(chars, start, chunk_size, overlap, index);
    if start < chars.len() {
        let end = chunk_end(chars.len(), start, chunk_size);
        let piece = chars.subrange(start as int, end as int);
        let kept = !all_whitespace(piece);
        let here: Seq<(Seq<char>, nat, nat, nat)> = if kept { seq![(piece, start, end, index)] } else { Seq::empty() };
        let index2 = if kept { index + 1 } else { index };
        if kept {
            assert(end > start) by {
                if end == start {
                    assert(piece.len() == 0);
                }
            }
        }
        if end < chars.len() {
            let nx = next_start(start, chunk_size, overlap);
            if nx > start {
                law_chunks_are_pieces(chars, nx, chunk_size, overlap, index2);
                let rest = chunks_from(chars, nx, chunk_size, overlap, index2);
                assert(r == here + rest);
                assert forall|i: int| 0 <= i < r.len() implies {
                    let c = #[trigger] r[i];
                    &&& start <= c.1 < c.2 <= chars.len()
                    &&& c.2 - c.1 <= chunk_size
                    &&& c.0 == chars.subrange(c.1 as int, c.2 as int)
                    &&& !all_whitespace(c.0)
                    &&& c.3 == index + i
                } by {
                    if i >= here.len() {
                        assert(r[i] == rest[i - here.len()]);
                    }
                }
                assert forall|i: int, j: int| 0 <= i < j < r.len() implies (#[trigger] r[i]).1 < (#[trigger] r[j]).1 by {
                    if i >= here.len() {
                        assert(r[i] == rest[i - here.len()]);
                        assert(r[j] == rest[j - here.len()]);
                    } else {
                        assert(r[j] == rest[j - here.len()]);
                    }
                }
            }
        }
    }
}

} // verus!
