//! Transports, wire constants and the request frame.
use vstd::prelude::*;
use crate::error::ConfigError;

verus! {

/// The magic byte that opens a TCP session.
pub const HELLO: u8 = 0xEE;

/// The smallest frame, in bytes.
pub const MIN_FRAME_SIZE: usize = 1;

/// The largest datagram that the UDP server receives.
pub const MAX_UDP_FRAME_SIZE: usize = 10_000_000;

/// The transport that a probe uses.
#[derive(Clone, Copy, Debug, PartialEq, Eq, Structural)]
pub enum Proto {
    Tcp,
    Udp,
    Icmp,
}

pub open spec fn proto_name(p: Proto) -> Seq<char> {
    match p {
        Proto::Tcp => "TCP"@,
        Proto::Udp => "UDP"@,
        Proto::Icmp => "ICMP"@,
    }
}

impl Proto {
    /// The upper-case name of the transport.
    pub fn name(&self) -> (r: &'static str)
        ensures
            r@ == proto_name(*self),
    {
        match self {
            Proto::Tcp => "TCP",
            Proto::Udp => "UDP",
            Proto::Icmp => "ICMP",
        }
    }
}

/// Relies on rand's `Rng::fill` on the thread-local generator: it overwrites the
/// slice in place with random bytes, so the length stays. (rand panics only when the
/// operating system gives no entropy to seed the generator.)
#[verifier::external_body]
fn fill_random(buf: &mut Vec<u8>)
    ensures
        final(buf)@.len() == old(buf)@.len(),
{
    rand::Rng::fill(&mut rand::thread_rng(), buf.as_mut_slice());
}

/// A frame of `frame_size` random bytes.
pub fn create_frame(frame_size: usize) -> (r: Vec<u8>)
    ensures
        r@.len() == frame_size,
{
    let mut frame = vec![0u8; frame_size];
    fill_random(&mut frame);
    frame
}

/// The request frame of a client: none for ICMP, which sends no payload of its own;
/// for TCP and UDP, `frame_size` random bytes, which must be at least the minimum.
pub fn client_frame(proto: Proto, frame_size: u32) -> (r: Result<Option<Vec<u8>>, ConfigError>)
    ensures
        match r {
            Ok(None) => proto == Proto::Icmp,
            Ok(Some(f)) => proto != Proto::Icmp && frame_size >= MIN_FRAME_SIZE && f@.len()
                == frame_size,
            Err(e) => proto != Proto::Icmp && frame_size < MIN_FRAME_SIZE && e
                == ConfigError::InvalidFrameSize(frame_size),
        },
{
    if proto == Proto::Icmp {
        return Ok(None);
    }
    let size = frame_size as usize;
    if size < MIN_FRAME_SIZE {
        return Err(ConfigError::InvalidFrameSize(frame_size));
    }
    Ok(Some(create_frame(size)))
}

} // verus!
