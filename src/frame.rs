//! Binary data frames: a one-octet identifier length, the identifier, then the payload.
use vstd::prelude::*;
use vstd::utf8::*;

verus! {

/// Largest identifier length, in bytes, that fits the one-octet header.
pub const MAX_ID_LEN: usize = 255;

/// The bytes of a frame carrying `payload` for the session whose identifier bytes are `id`.
pub open spec fn frame_spec(id: Seq<u8>, payload: Seq<u8>) -> Seq<u8> {
    seq![id.len() as u8] + id + payload
}

/// The UTF-8 bytes of an identifier.
pub open spec fn id_bytes(id: Seq<char>) -> Seq<u8> {
    encode_utf8(id)
}

/// Whether an identifier fits the frame header.
pub open spec fn id_fits(id: Seq<char>) -> bool {
    id_bytes(id).len() <= MAX_ID_LEN
}

/// Builds the frame that carries `payload` for session `session_id`.
pub fn build_frame(session_id: &str, payload: &[u8]) -> (frame: Vec<u8>)
    requires
        id_fits(session_id@),
    ensures
        frame@ == frame_spec(id_bytes(session_id@), payload@),
{
    let id = session_id.as_bytes();
    let len: usize = id.len();
    let mut frame: Vec<u8> = Vec::new();
    frame.push(len as u8);
    let mut i: usize = 0;
    while i < len
        invariant
            len == id@.len(),
            i <= len,
            frame@ == seq![len as u8] + id@.subrange(0, i as int),
        decreases len - i,
    {
        frame.push(id[i]);
        i = i + 1;
        assert(id@.subrange(0, i as int) == id@.subrange(0, i - 1) + seq![id@[i - 1]]);
    }
    assert(id@.subrange(0, len as int) == id@);
    let mut j: usize = 0;
    while j < payload.len()
        invariant
            j <= payload@.len(),
            frame@ == seq![len as u8] + id@ + payload@.subrange(0, j as int),
        decreases payload@.len() - j,
    {
        frame.push(payload[j]);
        j = j + 1;
        assert(payload@.subrange(0, j as int) == payload@.subrange(0, j - 1) + seq![payload@[j - 1]]);
    }
    assert(payload@.subrange(0, payload@.len() as int) == payload@);
    frame
}

/// The header of every frame holds the identifier's length, and the identifier follows it:
/// reading the first octet as `L`, the next `L` bytes are exactly the identifier and the
/// rest is the payload.
pub proof fn lemma_frame_header_parses(id: Seq<u8>, payload: Seq<u8>)
    requires
        id.len() <= MAX_ID_LEN,
    ensures
        ({
            let f = frame_spec(id, payload);
            let l = f[0] as int;
            &&& l == id.len()
            &&& f.len() == 1 + l + payload.len()
            &&& f.subrange(1, 1 + l) == id
            &&& f.subrange(1 + l, f.len() as int) == payload
        }),
{
    let f = frame_spec(id, payload);
    assert(f.subrange(1, 1 + id.len() as int) =~= id);
    assert(f.subrange(1 + id.len() as int, f.len() as int) =~= payload);
}

} // verus!
