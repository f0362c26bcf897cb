use vstd::prelude::*;

verus! {

/// Size of one read chunk, for both relay directions.  A read that fills a
/// whole chunk means more data may follow; a shorter read ends the message.
pub const BUFFER_SIZE: usize = 2048;

/// The message that a sequence of successive chunk reads assembles to: full
/// chunks are accumulated and the first short chunk ends the message.  A
/// zero-length read contributes nothing and ends it as well.
pub open spec fn message_of(chunks: Seq<Seq<u8>>) -> Seq<u8>
    decreases chunks.len(),
{
    if chunks.len() == 0 {
        Seq::empty()
    } else if chunks[0].len() == 0 {
        Seq::empty()
    } else if chunks[0].len() == BUFFER_SIZE {
        chunks[0] + message_of(chunks.skip(1))
    } else {
        chunks[0]
    }
}

/// One step of the accumulation rule.  `reader_buf` is a whole read buffer of
/// `BUFFER_SIZE` bytes of which the first `reader_buf_len` were filled; those
/// bytes are appended to the accumulated message and the return value says
/// whether the read loop must keep going: only an exactly-full chunk does.
pub fn read_buf_bytes(
    full_req_len: &mut usize,
    full_req_buf: &mut Vec<u8>,
    reader_buf_len: usize,
    reader_buf: Vec<u8>,
) -> (more: bool)
    requires
        reader_buf@.len() == BUFFER_SIZE,
        reader_buf_len <= BUFFER_SIZE,
        *old(full_req_len) + reader_buf_len <= usize::MAX,
    ensures
        more <==> reader_buf_len == BUFFER_SIZE,
        *final(full_req_len) == *old(full_req_len) + reader_buf_len,
        final(full_req_buf)@ == old(full_req_buf)@ + reader_buf@.take(reader_buf_len as int),
{
    if reader_buf_len == 0 {
        assert(old(full_req_buf)@ + reader_buf@.take(0) =~= old(full_req_buf)@);
        false
    } else {
        *full_req_len = *full_req_len + reader_buf_len;
        let mut i: usize = 0;
        while i < reader_buf_len
            invariant
                i <= reader_buf_len,
                reader_buf_len <= reader_buf@.len(),
                full_req_buf@ == old(full_req_buf)@ + reader_buf@.take(i as int),
            decreases reader_buf_len - i,
        {
            full_req_buf.push(reader_buf[i]);
            assert(old(full_req_buf)@ + reader_buf@.take(i as int + 1)
                =~= (old(full_req_buf)@ + reader_buf@.take(i as int)).push(reader_buf@[i as int]));
            i = i + 1;
        }
        reader_buf_len == BUFFER_SIZE
    }
}

/// Assemble one message from the successive chunk reads a stream or channel
/// produced, together with its length.  This is the read loop's computation:
/// `chunks[i]` holds the bytes the `i`-th read actually delivered, and reads
/// past the first short or empty one never happen, so they are ignored.
pub fn assemble_message(chunks: &Vec<Vec<u8>>) -> (r: (Vec<u8>, usize))
    requires
        forall|i: int| 0 <= i < chunks@.len() ==> (#[trigger] chunks@[i]@.len()) <= BUFFER_SIZE,
    ensures
        r.0@ == message_of(chunks@.map_values(|c: Vec<u8>| c@)),
        r.1 == r.0@.len(),
{
    let ghost m: Seq<Seq<u8>> = chunks@.map_values(|c: Vec<u8>| c@);
    let mut buf: Vec<u8> = Vec::new();
    let mut k: usize = 0;
    let mut done: bool = false;
    assert(m.skip(0) =~= m);
    while !done && k < chunks.len()
        invariant
            k <= chunks@.len(),
            m == chunks@.map_values(|c: Vec<u8>| c@),
            forall|i: int| 0 <= i < chunks@.len() ==> (#[trigger] chunks@[i]@.len()) <= BUFFER_SIZE,
            !done ==> message_of(m) == buf@ + message_of(m.skip(k as int)),
            done ==> buf@ == message_of(m),
        decreases (if done { 0int } else { 1int }), chunks@.len() - k,
    {
        let chunk_len = chunks[k].len();
        if chunk_len == 0 {
            assert(m.skip(k as int)[0].len() == 0);
            assert(buf@ + message_of(m.skip(k as int)) =~= buf@);
            done = true;
        } else {
            let ghost buf0 = buf@;
            let mut j: usize = 0;
            while j < chunk_len
                invariant
                    j <= chunk_len,
                    k < chunks@.len(),
                    chunk_len == chunks@[k as int]@.len(),
                    buf@ == buf0 + chunks@[k as int]@.take(j as int),
                decreases chunk_len - j,
            {
                buf.push(chunks[k][j]);
                assert(buf0 + chunks@[k as int]@.take(j as int + 1)
                    =~= (buf0 + chunks@[k as int]@.take(j as int)).push(chunks@[k as int]@[j as int]));
                j = j + 1;
            }
            assert(chunks@[k as int]@.take(chunk_len as int) =~= m[k as int]);
            if chunk_len < BUFFER_SIZE {
                assert(message_of(m.skip(k as int)) == m.skip(k as int)[0]);
                assert(buf@ =~= buf0 + message_of(m.skip(k as int)));
                done = true;
            } else {
                assert(message_of(m.skip(k as int))
                    == m.skip(k as int)[0] + message_of(m.skip(k as int).skip(1)));
                assert(m.skip(k as int).skip(1) =~= m.skip(k as int + 1));
                assert(buf0 + message_of(m.skip(k as int))
                    =~= (buf0 + m[k as int]) + message_of(m.skip(k as int + 1)));
                k = k + 1;
            }
        }
    }
    if !done {
        assert(m.skip(k as int).len() == 0);
        assert(message_of(m.skip(k as int)) =~= Seq::<u8>::empty());
        assert(buf@ + Seq::<u8>::empty() =~= buf@);
    }
    let n = buf.len();
    (buf, n)
}

} // verus!
