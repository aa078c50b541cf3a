//! The chunking policy and the per-call size ceiling.

use vstd::prelude::*;

use crate::errors::DaError;

verus! {

/// The largest payload one submission call may carry: the protocol's
/// message-size ceiling minus a small reserved overhead. A protocol-level
/// constant shared with the service, not a tunable.
pub const MAX_BLOB_SIZE: usize = 1024 * 1024 * 31 - 4;

/// Whether a payload may be submitted in a single call.
pub open spec fn spec_check_blob_size(data: Seq<u8>) -> Result<(), DaError> {
    if data.len() <= MAX_BLOB_SIZE {
        Ok(())
    } else {
        Err(
            DaError::SizeExceeded {
                max_size: MAX_BLOB_SIZE,
                actual_size: data.len() as usize,
            },
        )
    }
}

/// Gate a payload on the size ceiling before any submission call is made.
/// An oversized payload is rejected here, without contacting the service.
pub fn check_blob_size(data: &Vec<u8>) -> (r: Result<(), DaError>)
    ensures
        r == spec_check_blob_size(data@),
{
    if data.len() > MAX_BLOB_SIZE {
        Err(DaError::SizeExceeded { max_size: MAX_BLOB_SIZE, actual_size: data.len() })
    } else {
        Ok(())
    }
}

/// A payload within the ceiling is never rejected for size.
pub proof fn lemma_small_blob_never_size_exceeded(data: Seq<u8>)
    requires
        data.len() <= MAX_BLOB_SIZE,
    ensures
        spec_check_blob_size(data) is Ok,
{
}

/// A payload over the ceiling is always rejected for size, carrying the
/// ceiling and the payload's actual length.
pub proof fn lemma_oversized_blob_rejected(data: Seq<u8>)
    requires
        MAX_BLOB_SIZE < data.len() <= usize::MAX,
    ensures
        spec_check_blob_size(data) == Err::<(), DaError>(
            DaError::SizeExceeded { max_size: MAX_BLOB_SIZE, actual_size: data.len() as usize },
        ),
{
}

/// The ordered chunks a payload is split into: each chunk at most
/// `MAX_BLOB_SIZE` bytes, in payload order. A payload that already fits in
/// one call yields exactly one chunk (empty only when the payload is empty).
pub open spec fn spec_split_blob(data: Seq<u8>) -> Seq<Seq<u8>>
    decreases data.len(),
{
    if data.len() <= MAX_BLOB_SIZE {
        seq![data]
    } else {
        seq![data.take(MAX_BLOB_SIZE as int)] + spec_split_blob(data.skip(MAX_BLOB_SIZE as int))
    }
}

/// The byte sequences a vector of chunks holds.
pub open spec fn chunk_views(chunks: Seq<Vec<u8>>) -> Seq<Seq<u8>> {
    chunks.map_values(|c: Vec<u8>| c@)
}

/// Split a payload into its ordered chunks. Pure and deterministic: the
/// result is a function of the payload alone.
pub fn split_blob(data: &Vec<u8>) -> (chunks: Vec<Vec<u8>>)
    ensures
        chunk_views(chunks@) == spec_split_blob(data@),
{
    let mut chunks: Vec<Vec<u8>> = Vec::new();
    let mut start: usize = 0;
    proof {
        assert(data@.skip(0) =~= data@);
        assert(chunk_views(chunks@) =~= Seq::<Seq<u8>>::empty());
    }
    while data.len() - start > MAX_BLOB_SIZE
        invariant
            start <= data@.len(),
            chunk_views(chunks@) + spec_split_blob(data@.skip(start as int)) == spec_split_blob(
                data@,
            ),
        decreases data@.len() - start,
    {
        let ghost prev = chunk_views(chunks@);
        let ghost rest = data@.skip(start as int);
        let piece = vstd::slice::slice_to_vec(
            vstd::slice::slice_subrange(data.as_slice(), start, start + MAX_BLOB_SIZE),
        );
        chunks.push(piece);
        proof {
            let m = MAX_BLOB_SIZE as int;
            assert(piece@ =~= rest.take(m));
            assert(chunk_views(chunks@) =~= prev.push(rest.take(m)));
            assert(rest.skip(m) =~= data@.skip(start as int + m));
            assert(chunk_views(chunks@) + spec_split_blob(rest.skip(m)) =~= prev + (seq![
                rest.take(m),
            ] + spec_split_blob(rest.skip(m))));
            assert(seq![rest.take(m)] + spec_split_blob(rest.skip(m)) == spec_split_blob(rest));
        }
        start = start + MAX_BLOB_SIZE;
    }
    let ghost prev = chunk_views(chunks@);
    let ghost rest = data@.skip(start as int);
    let tail = vstd::slice::slice_to_vec(
        vstd::slice::slice_subrange(data.as_slice(), start, data.len()),
    );
    chunks.push(tail);
    proof {
        assert(tail@ =~= rest);
        assert(chunk_views(chunks@) =~= prev.push(rest));
        assert(spec_split_blob(rest) =~= seq![rest]);
        assert(chunk_views(chunks@) =~= prev + spec_split_blob(rest));
    }
    chunks
}

/// The bytes a sequence of chunks carries, in order.
pub open spec fn spec_concat_chunks(chunks: Seq<Seq<u8>>) -> Seq<u8>
    decreases chunks.len(),
{
    if chunks.len() == 0 {
        Seq::empty()
    } else {
        chunks[0] + spec_concat_chunks(chunks.skip(1))
    }
}

/// Chunking round-trip: concatenating the chunks of a payload, in order,
/// reproduces the payload exactly.
pub proof fn lemma_split_blob_round_trip(data: Seq<u8>)
    ensures
        spec_concat_chunks(spec_split_blob(data)) == data,
    decreases data.len(),
{
    if data.len() <= MAX_BLOB_SIZE {
        let s = spec_split_blob(data);
        assert(s =~= seq![data]);
        assert(s.skip(1) =~= Seq::<Seq<u8>>::empty());
        assert(spec_concat_chunks(Seq::<Seq<u8>>::empty()) == Seq::<u8>::empty());
        assert(spec_concat_chunks(s) == data + Seq::<u8>::empty());
        assert(data + Seq::<u8>::empty() =~= data);
    } else {
        let m = MAX_BLOB_SIZE as int;
        lemma_split_blob_round_trip(data.skip(m));
        let s = spec_split_blob(data);
        assert(s[0] == data.take(m));
        assert(s.skip(1) =~= spec_split_blob(data.skip(m)));
        assert(spec_concat_chunks(s) == s[0] + spec_concat_chunks(s.skip(1)));
        assert(spec_concat_chunks(s) == data.take(m) + data.skip(m));
        assert(data.take(m) + data.skip(m) =~= data);
    }
}

/// Every chunk respects the size ceiling, and no chunk is empty unless the
/// payload itself is empty (which yields exactly one empty chunk).
pub proof fn lemma_split_blob_chunk_sizes(data: Seq<u8>)
    ensures
        forall|i: int|
            0 <= i < spec_split_blob(data).len() ==> #[trigger] spec_split_blob(data)[i].len()
                <= MAX_BLOB_SIZE,
        data.len() > 0 ==> forall|i: int|
            0 <= i < spec_split_blob(data).len() ==> #[trigger] spec_split_blob(data)[i].len() > 0,
    decreases data.len(),
{
    if data.len() <= MAX_BLOB_SIZE {
    } else {
        let m = MAX_BLOB_SIZE as int;
        lemma_split_blob_chunk_sizes(data.skip(m));
        let s = spec_split_blob(data);
        let srest = spec_split_blob(data.skip(m));
        assert forall|i: int| 0 <= i < s.len() implies #[trigger] s[i].len() <= MAX_BLOB_SIZE
            && s[i].len() > 0 by {
            if i == 0 {
                assert(s[0] == data.take(m));
            } else {
                assert(s[i] == srest[i - 1]);
            }
        }
    }
}

/// Every chunk of a split passes the submission size gate: a multi-chunk
/// workflow never trips the ceiling it was split to respect.
pub proof fn lemma_chunks_pass_size_check(data: Seq<u8>)
    ensures
        forall|i: int|
            0 <= i < spec_split_blob(data).len() ==> #[trigger] spec_check_blob_size(
                spec_split_blob(data)[i],
            ) is Ok,
{
    lemma_split_blob_chunk_sizes(data);
}

/// Chunk-wise idempotence: splitting any chunk of a split yields exactly
/// that chunk again.
pub proof fn lemma_split_blob_idempotent(data: Seq<u8>)
    ensures
        forall|i: int|
            0 <= i < spec_split_blob(data).len() ==> #[trigger] spec_split_blob(
                spec_split_blob(data)[i],
            ) == seq![spec_split_blob(data)[i]],
{
    lemma_split_blob_chunk_sizes(data);
    assert forall|i: int| 0 <= i < spec_split_blob(data).len() implies #[trigger] spec_split_blob(
        spec_split_blob(data)[i],
    ) == seq![spec_split_blob(data)[i]] by {
        let c = spec_split_blob(data)[i];
        assert(c.len() <= MAX_BLOB_SIZE);
        assert(spec_split_blob(c) == seq![c]);
    }
}

/// How many chunks a payload yields: exactly one for an empty payload,
/// otherwise the length divided by the ceiling, rounded up.
pub proof fn lemma_split_blob_chunk_count(data: Seq<u8>)
    ensures
        data.len() == 0 ==> spec_split_blob(data).len() == 1,
        data.len() > 0 ==> spec_split_blob(data).len() == 1 + (data.len() - 1) / (
        MAX_BLOB_SIZE as int),
    decreases data.len(),
{
    let m = MAX_BLOB_SIZE as int;
    if data.len() <= MAX_BLOB_SIZE {
        if data.len() > 0 {
            assert((data.len() - 1) / m == 0) by {
                vstd::arithmetic::div_mod::lemma_basic_div(data.len() - 1, m);
            }
        }
    } else {
        lemma_split_blob_chunk_count(data.skip(m));
        assert(data.skip(m).len() == data.len() - m);
        assert(1 + (data.len() - m - 1) / m == (m + (data.len() - m - 1)) / m) by {
            vstd::arithmetic::div_mod::lemma_div_plus_one(data.len() - m - 1, m);
        }
    }
}

} // verus!
