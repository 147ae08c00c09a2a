//! Bounded assembly of a request or response body from the chunks a stream
//! delivers: the body is capped at a configured maximum size, so a peer that
//! keeps sending cannot grow memory without bound.

use vstd::prelude::*;

use crate::message::ProtocolError;

verus! {

/// The configured maximum size, in bytes, of a request or response body.
pub const BUFFER_SIZE: usize = 1024;

/// The whole body carried by a sequence of chunks, in delivery order.
pub open spec fn concat_bytes(chunks: Seq<Seq<u8>>) -> Seq<u8>
    decreases chunks.len(),
{
    if chunks.len() == 0 {
        Seq::empty()
    } else {
        concat_bytes(chunks.drop_last()) + chunks.last()
    }
}

/// The views of a sequence of byte vectors.
pub open spec fn views_of(chunks: Seq<Vec<u8>>) -> Seq<Seq<u8>> {
    chunks.map_values(|c: Vec<u8>| c@)
}

/// Append one received chunk to a body under assembly. The chunk is taken in
/// full when it still fits under the cap; otherwise the body is left exactly
/// as it was and the oversize is reported.
pub fn append_chunk(body: &mut Vec<u8>, chunk: &Vec<u8>, max: usize) -> (r: Result<(), ProtocolError>)
    ensures
        old(body)@.len() + chunk@.len() <= max ==> (r is Ok && final(body)@ == old(body)@
            + chunk@),
        old(body)@.len() + chunk@.len() > max ==> (r == Err::<(), ProtocolError>(
            ProtocolError::OversizedBody,
        ) && final(body)@ == old(body)@),
{
    if chunk.len() <= max && body.len() <= max - chunk.len() {
        proof {
            assert(old(body)@ + chunk@.take(0) =~= old(body)@);
        }
        let mut i: usize = 0;
        while i < chunk.len()
            invariant
                i <= chunk.len(),
                body@ == old(body)@ + chunk@.take(i as int),
            decreases chunk.len() - i,
        {
            body.push(chunk[i]);
            proof {
                assert(body@ =~= old(body)@ + chunk@.take(i as int + 1));
            }
            i = i + 1;
        }
        proof {
            assert(chunk@.take(chunk.len() as int) =~= chunk@);
        }
        Ok(())
    } else {
        Err(ProtocolError::OversizedBody)
    }
}

/// A body no longer than a prefix of its chunks carries is no longer than the
/// whole sequence of chunks carries.
proof fn lemma_concat_prefix_len(chunks: Seq<Seq<u8>>, j: int)
    requires
        0 <= j <= chunks.len(),
    ensures
        concat_bytes(chunks).len() >= concat_bytes(chunks.take(j)).len(),
    decreases chunks.len() - j,
{
    if j == chunks.len() {
        assert(chunks.take(j) =~= chunks);
    } else {
        lemma_concat_prefix_len(chunks, j + 1);
        assert(chunks.take(j + 1).drop_last() =~= chunks.take(j));
    }
}

/// Assemble a complete body from the chunks a stream delivered, in order,
/// enforcing the size cap: a body of at most `max` bytes is returned whole; a
/// longer one is rejected with `OversizedBody` instead of being buffered
/// without bound. Models reading a stream to its end.
pub fn read_body(chunks: &Vec<Vec<u8>>, max: usize) -> (r: Result<Vec<u8>, ProtocolError>)
    ensures
        concat_bytes(views_of(chunks@)).len() <= max ==> (r matches Ok(body) && body@
            == concat_bytes(views_of(chunks@))),
        concat_bytes(views_of(chunks@)).len() > max ==> r == Err::<Vec<u8>, ProtocolError>(
            ProtocolError::OversizedBody,
        ),
{
    let mut body: Vec<u8> = Vec::new();
    proof {
        assert(views_of(chunks@).take(0) =~= Seq::<Seq<u8>>::empty());
    }
    let mut i: usize = 0;
    while i < chunks.len()
        invariant
            i <= chunks.len(),
            body@ == concat_bytes(views_of(chunks@).take(i as int)),
            body@.len() <= max,
        decreases chunks.len() - i,
    {
        let step = append_chunk(&mut body, &chunks[i], max);
        proof {
            assert(views_of(chunks@).take(i as int + 1).drop_last() =~= views_of(chunks@).take(
                i as int,
            ));
        }
        match step {
            Ok(()) => {},
            Err(e) => {
                proof {
                    lemma_concat_prefix_len(views_of(chunks@), i as int + 1);
                }
                return Err(e);
            },
        }
        i = i + 1;
    }
    proof {
        assert(views_of(chunks@).take(chunks@.len() as int) =~= views_of(chunks@));
    }
    Ok(body)
}

} // verus!
