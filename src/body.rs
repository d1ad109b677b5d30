use vstd::prelude::*;

use crate::error::S3Error;

verus! {

/// All chunks, in order, joined into one byte sequence.
pub open spec fn concat_chunks(chunks: Seq<Seq<u8>>) -> Seq<u8>
    decreases chunks.len(),
{
    if chunks.len() == 0 {
        Seq::empty()
    } else {
        concat_chunks(chunks.drop_last()) + chunks.last()
    }
}

/// What a finished body is: the bytes, unless a length was announced and
/// they do not have it.
pub open spec fn body_result(bytes: Seq<u8>, expected: Option<usize>) -> Result<Seq<u8>, S3Error> {
    match expected {
        Some(n) if n != bytes.len() => Err(S3Error::BodySizeMismatch(bytes.len() as usize, n)),
        _ => Ok(bytes),
    }
}

/// Collects a response body chunk by chunk and checks its length at the end.
pub struct BodyAggregator {
    buffer: Vec<u8>,
}

impl View for BodyAggregator {
    type V = Seq<u8>;

    closed spec fn view(&self) -> Seq<u8> {
        self.buffer@
    }
}

impl BodyAggregator {
    pub fn new() -> (r: BodyAggregator)
        ensures
            r@ == Seq::<u8>::empty(),
    {
        BodyAggregator { buffer: Vec::new() }
    }

    /// Appends one chunk as it arrived.
    pub fn push_chunk(&mut self, chunk: &[u8])
        requires
            old(self)@.len() + chunk@.len() <= usize::MAX,
        ensures
            final(self)@ == old(self)@ + chunk@,
    {
        let ghost start = self.buffer@;
        let mut i: usize = 0;
        while i < chunk.len()
            invariant
                i <= chunk@.len(),
                start.len() + chunk@.len() <= usize::MAX,
                self.buffer@ == start + chunk@.subrange(0, i as int),
            decreases chunk@.len() - i,
        {
            self.buffer.push(chunk[i]);
            i = i + 1;
            assert(chunk@.subrange(0, i as int) =~= chunk@.subrange(0, i - 1) + seq![chunk@[i - 1]]);
        }
        assert(chunk@.subrange(0, i as int) =~= chunk@);
    }

    /// Number of bytes collected so far.
    pub fn len(&self) -> (r: usize)
        ensures
            r == self@.len(),
    {
        self.buffer.len()
    }

    /// Ends the stream: the collected bytes, or `BodySizeMismatch(actual, expected)`
    /// when a length was announced and not met.
    pub fn finish(self, expected: Option<usize>) -> (r: Result<Vec<u8>, S3Error>)
        ensures
            match body_result(self@, expected) {
                Ok(b) => r is Ok && r->Ok_0@ == b,
                Err(e) => r == Err::<Vec<u8>, S3Error>(e),
            },
    {
        match expected {
            Some(n) => {
                if n != self.buffer.len() {
                    Err(S3Error::BodySizeMismatch(self.buffer.len(), n))
                } else {
                    Ok(self.buffer)
                }
            },
            None => Ok(self.buffer),
        }
    }
}

/// Feeds every chunk, in order, to a fresh aggregator and finishes it.
pub fn aggregate_body(chunks: &Vec<Vec<u8>>, expected: Option<usize>) -> (r: Result<Vec<u8>, S3Error>)
    requires
        concat_chunks(chunks@.map_values(|c: Vec<u8>| c@)).len() <= usize::MAX,
    ensures
        match body_result(concat_chunks(chunks@.map_values(|c: Vec<u8>| c@)), expected) {
            Ok(b) => r is Ok && r->Ok_0@ == b,
            Err(e) => r == Err::<Vec<u8>, S3Error>(e),
        },
{
    let ghost all = chunks@.map_values(|c: Vec<u8>| c@);
    let mut agg = BodyAggregator::new();
    let mut i: usize = 0;
    while i < chunks.len()
        invariant
            i <= chunks@.len(),
            all == chunks@.map_values(|c: Vec<u8>| c@),
            concat_chunks(all).len() <= usize::MAX,
            agg@ == concat_chunks(all.subrange(0, i as int)),
        decreases chunks@.len() - i,
    {
        proof {
            lemma_concat_prefix_len(all, i as int + 1);
            assert(all.subrange(0, i + 1).drop_last() =~= all.subrange(0, i as int));
        }
        agg.push_chunk(chunks[i].as_slice());
        i = i + 1;
    }
    assert(all.subrange(0, i as int) =~= all);
    agg.finish(expected)
}

/// A prefix of the chunks never joins to more bytes than all of them.
proof fn lemma_concat_prefix_len(chunks: Seq<Seq<u8>>, k: int)
    requires
        0 <= k <= chunks.len(),
    ensures
        concat_chunks(chunks.subrange(0, k)).len() <= concat_chunks(chunks).len(),
    decreases chunks.len() - k,
{
    if k < chunks.len() {
        lemma_concat_prefix_len(chunks, k + 1);
        assert(chunks.subrange(0, k + 1).drop_last() =~= chunks.subrange(0, k));
    } else {
        assert(chunks.subrange(0, k) =~= chunks);
    }
}

} // verus!
