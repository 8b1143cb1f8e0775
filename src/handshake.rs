//! The TCP greeting and the echo checks shared by TCP and UDP.
use vstd::prelude::*;
use crate::error::SessionError;
use crate::proto::{HELLO, MIN_FRAME_SIZE};

verus! {

/// The unsigned integer that four bytes hold, least significant first.
pub open spec fn le_u32(b: Seq<u8>) -> int {
    b[0] + 256 * b[1] + 65536 * b[2] + 16777216 * b[3]
}

/// The client's greeting: the magic byte, then the frame size in four little-endian bytes.
pub open spec fn client_hello_bytes(frame_size: u32) -> Seq<u8> {
    seq![
        HELLO,
        (frame_size % 256) as u8,
        ((frame_size / 256) % 256) as u8,
        ((frame_size / 65536) % 256) as u8,
        (frame_size / 16777216) as u8,
    ]
}

/// The client's greeting for frames of `frame_size` bytes.
pub fn client_hello(frame_size: u32) -> (r: Vec<u8>)
    ensures
        r@ == client_hello_bytes(frame_size),
{
    let mut b: Vec<u8> = Vec::new();
    b.push(HELLO);
    b.push((frame_size % 256) as u8);
    b.push(((frame_size / 256) % 256) as u8);
    b.push(((frame_size / 65536) % 256) as u8);
    b.push((frame_size / 16777216) as u8);
    assert(b@ =~= client_hello_bytes(frame_size));
    b
}

/// The server's check of the five greeting bytes: the magic byte first, then a frame
/// size of at least the minimum, which it returns.
pub fn parse_client_hello(buf: &[u8]) -> (r: Result<usize, SessionError>)
    requires
        buf@.len() == 5,
    ensures
        match r {
            Ok(n) => buf@[0] == HELLO && n == le_u32(buf@.subrange(1, 5)) && n
                >= MIN_FRAME_SIZE,
            Err(e) => if buf@[0] != HELLO {
                e == SessionError::InvalidHello
            } else {
                le_u32(buf@.subrange(1, 5)) < MIN_FRAME_SIZE && e
                    == SessionError::InvalidFrameSize(le_u32(buf@.subrange(1, 5)) as u32)
            },
        },
{
    if buf[0] != HELLO {
        return Err(SessionError::InvalidHello);
    }
    let size: u32 = buf[1] as u32 + 256 * (buf[2] as u32) + 65536 * (buf[3] as u32) + 16777216 * (
    buf[4] as u32);
    assert(size == le_u32(buf@.subrange(1, 5)));
    if (size as usize) < MIN_FRAME_SIZE {
        return Err(SessionError::InvalidFrameSize(size));
    }
    Ok(size as usize)
}

/// The client's check of the server's greeting byte.
pub fn check_server_hello(b: u8) -> (r: Result<(), SessionError>)
    ensures
        r is Ok <==> b == HELLO,
        r is Err ==> r == Err::<(), SessionError>(SessionError::InvalidHello),
{
    if b == HELLO {
        Ok(())
    } else {
        Err(SessionError::InvalidHello)
    }
}

/// Whether two byte strings are equal.
pub fn same_bytes(a: &[u8], b: &[u8]) -> (r: bool)
    ensures
        r <==> a@ == b@,
{
    if a.len() != b.len() {
        return false;
    }
    let mut i: usize = 0;
    while i < a.len()
        invariant
            a@.len() == b@.len(),
            i <= a@.len(),
            a@.subrange(0, i as int) == b@.subrange(0, i as int),
        decreases a@.len() - i,
    {
        if a[i] != b[i] {
            assert(a@[i as int] != b@[i as int]);
            return false;
        }
        assert(a@.subrange(0, i + 1) =~= a@.subrange(0, i as int).push(a@[i as int]));
        assert(b@.subrange(0, i + 1) =~= b@.subrange(0, i as int).push(b@[i as int]));
        i = i + 1;
    }
    assert(a@ =~= a@.subrange(0, i as int));
    assert(b@ =~= b@.subrange(0, i as int));
    true
}

/// The integrity check of one round trip: the response must be the request, byte for
/// byte and of the same length.
pub fn check_echo(req: &[u8], resp: &[u8]) -> (r: Result<(), SessionError>)
    ensures
        r is Ok <==> resp@ == req@,
        r is Err ==> r == Err::<(), SessionError>(SessionError::InvalidPacket),
{
    if same_bytes(req, resp) {
        Ok(())
    } else {
        Err(SessionError::InvalidPacket)
    }
}

/// The greeting that a client sends, read back by the server, gives the frame size.
pub proof fn lemma_client_hello_round_trip(frame_size: u32)
    ensures
        client_hello_bytes(frame_size).len() == 5,
        client_hello_bytes(frame_size)[0] == HELLO,
        le_u32(client_hello_bytes(frame_size).subrange(1, 5)) == frame_size,
{
    let b = client_hello_bytes(frame_size);
    let s = b.subrange(1, 5);
    assert(s[0] == frame_size % 256);
    assert(s[1] == (frame_size / 256) % 256);
    assert(s[2] == (frame_size / 65536) % 256);
    assert(s[3] == frame_size / 16777216);
}

} // verus!
