//! Splitting streamed output into bounded pieces along character boundaries.
//!
//! When a maximum chunk size is configured, a written string is delivered as
//! an ordered run of pieces of at most that many characters; concatenating
//! the pieces in order reproduces the original content exactly.

use vstd::prelude::*;

verus! {

/// The chunks of `s` under maximum size `k`: full pieces of `k` characters,
/// then whatever remains. An empty `s` yields no chunks at all.
pub open spec fn spec_chunks(s: Seq<char>, k: int) -> Seq<Seq<char>>
    decreases s.len(),
{
    if k < 1 || s.len() == 0 {
        Seq::empty()
    } else if s.len() <= k {
        seq![s]
    } else {
        seq![s.take(k)] + spec_chunks(s.skip(k), k)
    }
}

/// The views of a vector of chunk strings.
pub open spec fn chunk_views(v: Seq<String>) -> Seq<Seq<char>> {
    v.map_values(|x: String| x@)
}

/// Chunking then concatenating in order reproduces the content exactly, the
/// pieces never exceed `k` characters, and every piece but the last is full.
pub proof fn lemma_chunks_reassemble(s: Seq<char>, k: int)
    requires
        k >= 1,
    ensures
        spec_chunks(s, k).flatten() == s,
        forall|i: int| 0 <= i < spec_chunks(s, k).len() ==> #[trigger] spec_chunks(s, k)[i].len()
            <= k,
        forall|i: int|
            0 <= i < spec_chunks(s, k).len() - 1 ==> #[trigger] spec_chunks(s, k)[i].len() == k,
        spec_chunks(s, k).len() == 0 <==> s.len() == 0,
    decreases s.len(),
{
    if s.len() == 0 {
        assert(spec_chunks(s, k).flatten() =~= s);
    } else if s.len() <= k {
        seq![s].lemma_flatten_one_element();
    } else {
        lemma_chunks_reassemble(s.skip(k), k);
        let rest = spec_chunks(s.skip(k), k);
        let whole = seq![s.take(k)] + rest;
        assert(whole.drop_first() =~= rest);
        assert(whole.flatten() == s.take(k) + rest.flatten());
        assert(s.take(k) + s.skip(k) =~= s);
        assert(forall|i: int| 0 <= i < whole.len() - 1 ==> #[trigger] whole[i].len() == k) by {
            assert(forall|i: int| 1 <= i < whole.len() ==> whole[i] == rest[i - 1]);
        }
    }
}

/// Split `content` into pieces of at most `max_chunk_size` characters.
pub fn chunk_content(content: &str, max_chunk_size: usize) -> (chunks: Vec<String>)
    requires
        max_chunk_size >= 1,
    ensures
        chunk_views(chunks@) == spec_chunks(content@, max_chunk_size as int),
        chunk_views(chunks@).flatten() == content@,
{
    proof {
        lemma_chunks_reassemble(content@, max_chunk_size as int);
    }
    let k = max_chunk_size;
    let len = content.unicode_len();
    let mut chunks: Vec<String> = Vec::new();
    let mut i: usize = 0;
    proof {
        assert(chunk_views(chunks@) =~= Seq::<Seq<char>>::empty());
        assert(content@.skip(0) =~= content@);
    }
    while i < len
        invariant
            1 <= k,
            i <= len,
            len == content@.len(),
            i < len ==> spec_chunks(content@, k as int) == chunk_views(chunks@) + spec_chunks(
                content@.skip(i as int),
                k as int,
            ),
            i == len ==> spec_chunks(content@, k as int) == chunk_views(chunks@),
        decreases len - i,
    {
        let j = if len - i < k {
            len
        } else {
            i + k
        };
        let piece = String::from_str(content.substring_char(i, j));
        chunks.push(piece);
        proof {
            let rem = content@.skip(i as int);
            if rem.len() <= k {
                assert(rem.take(rem.len() as int) =~= rem);
                assert(piece@ =~= rem);
                assert(spec_chunks(rem, k as int) =~= seq![rem]);
            } else {
                assert(piece@ =~= rem.take(k as int));
                assert(rem.skip(k as int) =~= content@.skip(j as int));
            }
            assert(chunk_views(chunks@) =~= chunk_views(chunks@.drop_last()).push(piece@));
            if i as int + k < len {
                assert(chunk_views(chunks@) + spec_chunks(content@.skip(j as int), k as int)
                    =~= (chunk_views(chunks@.drop_last()) + spec_chunks(rem, k as int)));
            } else {
                assert(chunk_views(chunks@) =~= chunk_views(chunks@.drop_last()) + spec_chunks(
                    rem,
                    k as int,
                ));
            }
        }
        i = j;
    }
    proof {
        if len == 0 {
            assert(chunk_views(chunks@) =~= spec_chunks(content@, k as int));
        }
    }
    chunks
}

} // verus!
