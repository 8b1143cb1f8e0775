//! The session protocol as state machines: the caller performs each I/O step that a
//! machine asks for and hands back what happened.
use vstd::prelude::*;
use crate::error::{ConfigError, SessionError};
use crate::handshake::{
    check_echo,
    check_server_hello,
    client_hello,
    client_hello_bytes,
    le_u32,
    parse_client_hello,
};
use crate::proto::{HELLO, MIN_FRAME_SIZE};

verus! {

/// The transports that carry frames.
#[derive(Clone, Copy, Debug, PartialEq, Eq, Structural)]
pub enum Transport {
    Tcp,
    Udp,
}

/// Where a client session stands.
#[derive(Clone, Copy, Debug, PartialEq, Eq, Structural)]
pub enum Phase {
    /// No connection: the next step opens one.
    Closed,
    /// TCP: connected, waiting for the server's magic byte.
    AwaitingHello,
    /// TCP: sending the greeting with the frame size.
    SendingHello,
    /// Exchanging frames.
    Exchanging,
}

/// The next I/O step of a client.
#[derive(Clone, Debug, PartialEq, Eq)]
pub enum ClientIo {
    /// Connect (TCP) or bind a local socket (UDP), with the configured timeouts.
    Open,
    /// Read one byte.
    ReadHello,
    /// Write these bytes.
    SendHello(Vec<u8>),
    /// Send the request frame and receive the response.
    Exchange,
}

/// What the transport reports for the step that a client asked for.
#[derive(Clone, Debug, PartialEq, Eq)]
pub enum ClientEvent {
    Opened,
    Hello(u8),
    HelloSent,
    /// The bytes received in answer to the frame.
    Response(Vec<u8>),
    /// The step failed, with the transport's description.
    Failed(String),
}

/// The outcome of an iteration, for the output sink.
#[derive(Clone, Debug, PartialEq, Eq)]
pub enum Report {
    Success,
    Failure(SessionError),
}

/// A client's decision on one event.
#[derive(Clone, Debug, PartialEq, Eq)]
pub struct ClientStep {
    /// The next I/O step.
    pub io: ClientIo,
    /// The iteration that ended, if one did.
    pub report: Option<Report>,
    /// Whether the session just became ready, so that the measurement starts now.
    pub reset_clock: bool,
}

/// The state of a client session, as values.
pub struct ClientSessionView {
    pub transport: Transport,
    pub frame: Seq<u8>,
    pub phase: Phase,
}

/// The decision of a client in state `s` on event `e`: the next state, the I/O step,
/// the report and whether the clock restarts. Any failure closes the session, which
/// is opened again after the report; an event out of turn is a failure too.
pub open spec fn client_step(s: ClientSessionView, e: ClientEvent) -> (ClientSessionView, ClientStep) {
    let closed = ClientSessionView { phase: Phase::Closed, ..s };
    let fail = |err: SessionError|
        (closed, ClientStep { io: ClientIo::Open, report: Some(Report::Failure(err)), reset_clock: false });
    match e {
        ClientEvent::Failed(m) => fail(SessionError::Io(m)),
        ClientEvent::Opened => if s.phase != Phase::Closed {
            fail(SessionError::OutOfOrder)
        } else if s.transport == Transport::Tcp {
            (
                ClientSessionView { phase: Phase::AwaitingHello, ..s },
                ClientStep { io: ClientIo::ReadHello, report: None, reset_clock: false },
            )
        } else {
            (
                ClientSessionView { phase: Phase::Exchanging, ..s },
                ClientStep { io: ClientIo::Exchange, report: None, reset_clock: true },
            )
        },
        ClientEvent::Hello(b) => if s.phase != Phase::AwaitingHello {
            fail(SessionError::OutOfOrder)
        } else if b != HELLO {
            fail(SessionError::InvalidHello)
        } else {
            (
                ClientSessionView { phase: Phase::SendingHello, ..s },
                ClientStep { io: ClientIo::SendHello(hello_vec(s.frame.len() as u32)), report: None, reset_clock: false },
            )
        },
        ClientEvent::HelloSent => if s.phase != Phase::SendingHello {
            fail(SessionError::OutOfOrder)
        } else {
            (
                ClientSessionView { phase: Phase::Exchanging, ..s },
                ClientStep { io: ClientIo::Exchange, report: None, reset_clock: true },
            )
        },
        ClientEvent::Response(resp) => if s.phase != Phase::Exchanging {
            fail(SessionError::OutOfOrder)
        } else if resp@ != s.frame {
            fail(SessionError::InvalidPacket)
        } else {
            (s, ClientStep { io: ClientIo::Exchange, report: Some(Report::Success), reset_clock: false })
        },
    }
}

/// Some vector that holds the greeting for frames of `n` bytes.
pub open spec fn hello_vec(n: u32) -> Vec<u8> {
    choose|v: Vec<u8>| v@ == client_hello_bytes(n)
}

/// Whether `a` and `b` are the same step, the greeting compared by its bytes.
pub open spec fn same_step(a: ClientStep, b: ClientStep) -> bool {
    &&& a.report == b.report
    &&& a.reset_clock == b.reset_clock
    &&& match (a.io, b.io) {
        (ClientIo::SendHello(x), ClientIo::SendHello(y)) => x@ == y@,
        (x, y) => x == y,
    }
}

/// The state after each event of `events`, in order.
pub open spec fn client_run(s: ClientSessionView, events: Seq<ClientEvent>) -> ClientSessionView
    decreases events.len(),
{
    if events.len() == 0 {
        s
    } else {
        client_step(client_run(s, events.drop_last()), events.last()).0
    }
}

/// Over TCP, frames flow only after the handshake: from a closed session, whatever the
/// events, the session exchanges frames only if some event `k` was the sending of the
/// greeting, right after the server's magic byte, and every event since was a
/// response equal to the request.
pub proof fn lemma_no_frame_before_handshake(s: ClientSessionView, events: Seq<ClientEvent>)
    requires
        s.transport == Transport::Tcp,
        s.phase == Phase::Closed,
    ensures
        client_run(s, events).transport == s.transport,
        client_run(s, events).frame == s.frame,
        client_run(s, events).phase == Phase::SendingHello ==> events.len() > 0 && events.last()
            == ClientEvent::Hello(HELLO),
        client_run(s, events).phase == Phase::Exchanging ==> exists|k: int|
            #![trigger events[k]]
            1 <= k < events.len() && events[k - 1] == ClientEvent::Hello(HELLO) && events[k]
                == ClientEvent::HelloSent && forall|i: int|
                k < i < events.len() ==> (#[trigger] events[i] matches ClientEvent::Response(r)
                    && r@ == s.frame),
    decreases events.len(),
{
    if events.len() > 0 {
        let init = events.drop_last();
        let e = events.last();
        let n = events.len() - 1;
        lemma_no_frame_before_handshake(s, init);
        let p = client_run(s, init);
        let q = client_run(s, events);
        assert(q == client_step(p, e).0);
        if q.phase == Phase::Exchanging {
            if p.phase == Phase::Exchanging {
                let k = choose|k: int|
                    #![trigger init[k]]
                    1 <= k < init.len() && init[k - 1] == ClientEvent::Hello(HELLO) && init[k]
                        == ClientEvent::HelloSent && forall|i: int|
                        k < i < init.len() ==> (#[trigger] init[i] matches ClientEvent::Response(
                            r,
                        ) && r@ == s.frame);
                assert(events[k] == init[k]);
                assert(events[k - 1] == init[k - 1]);
                assert forall|i: int| k < i < events.len() implies (#[trigger] events[i] matches ClientEvent::Response(
                    r,
                ) && r@ == s.frame) by {
                    if i < n {
                        assert(events[i] == init[i]);
                    }
                }
            } else {
                assert(p.phase == Phase::SendingHello);
                assert(events[n] == ClientEvent::HelloSent);
                assert(events[n - 1] == init.last());
            }
        }
    }
}

/// A client session for one transport and one request frame.
pub struct ClientSession {
    transport: Transport,
    frame: Vec<u8>,
    phase: Phase,
}

impl View for ClientSession {
    type V = ClientSessionView;

    closed spec fn view(&self) -> ClientSessionView {
        ClientSessionView { transport: self.transport, frame: self.frame@, phase: self.phase }
    }
}

impl ClientSession {
    /// The frame can be announced in the greeting.
    pub open spec fn wf(&self) -> bool {
        MIN_FRAME_SIZE <= self@.frame.len() <= u32::MAX
    }

    /// A closed session that will send `frame` on every iteration.
    pub fn new(transport: Transport, frame: Vec<u8>) -> (r: Result<ClientSession, ConfigError>)
        ensures
            match r {
                Ok(s) => s.wf() && s@ == ClientSessionView {
                    transport,
                    frame: frame@,
                    phase: Phase::Closed,
                },
                Err(e) => if frame@.len() < MIN_FRAME_SIZE {
                    e == ConfigError::InvalidFrameSize(frame@.len() as u32)
                } else {
                    frame@.len() > u32::MAX && e == ConfigError::FrameTooLarge(frame@.len() as usize)
                },
            },
    {
        let len = frame.len();
        if len < MIN_FRAME_SIZE {
            return Err(ConfigError::InvalidFrameSize(len as u32));
        }
        if len as u64 > u32::MAX as u64 {
            return Err(ConfigError::FrameTooLarge(len));
        }
        Ok(ClientSession { transport, frame, phase: Phase::Closed })
    }

    /// The request frame.
    pub fn frame(&self) -> (r: &[u8])
        ensures
            r@ == self@.frame,
    {
        self.frame.as_slice()
    }

    /// Where the session stands.
    pub fn phase(&self) -> (r: Phase)
        ensures
            r == self@.phase,
    {
        self.phase
    }

    fn fail(&mut self, err: SessionError) -> (r: ClientStep)
        ensures
            final(self)@ == (ClientSessionView { phase: Phase::Closed, ..old(self)@ }),
            r == (ClientStep { io: ClientIo::Open, report: Some(Report::Failure(err)), reset_clock: false }),
    {
        self.phase = Phase::Closed;
        ClientStep { io: ClientIo::Open, report: Some(Report::Failure(err)), reset_clock: false }
    }

    /// Decides on `event`, the outcome of the last I/O step.
    ///
    /// A frame is exchanged only once the server's magic byte has been seen and the
    /// greeting sent; a wrong magic byte ends the session before any frame. An
    /// iteration succeeds exactly when the response is the request, byte for byte.
    pub fn step(&mut self, event: ClientEvent) -> (r: ClientStep)
        requires
            old(self).wf(),
        ensures
            final(self).wf(),
            final(self)@ == client_step(old(self)@, event).0,
            same_step(r, client_step(old(self)@, event).1),
            (event matches ClientEvent::Hello(b) && old(self)@.phase == Phase::AwaitingHello && b
                != HELLO) ==> r.io == ClientIo::Open && r.report == Some(
                Report::Failure(SessionError::InvalidHello),
            ),
            r.io == ClientIo::Exchange && old(self)@.phase != Phase::Exchanging && old(self)@.transport
                == Transport::Tcp ==> old(self)@.phase == Phase::SendingHello,
            final(self)@.phase == Phase::SendingHello ==> old(self)@.phase == Phase::AwaitingHello
                && event == ClientEvent::Hello(HELLO),
            r.report == Some(Report::Success) <==> (event matches ClientEvent::Response(resp)
                && old(self)@.phase == Phase::Exchanging && resp@ == old(self)@.frame),
            (event matches ClientEvent::Response(resp) && old(self)@.phase == Phase::Exchanging
                && resp@ != old(self)@.frame) ==> r.report == Some(
                Report::Failure(SessionError::InvalidPacket),
            ),
    {
        let ghost s = self@;
        match event {
            ClientEvent::Failed(m) => self.fail(SessionError::Io(m)),
            ClientEvent::Opened => {
                if self.phase != Phase::Closed {
                    self.fail(SessionError::OutOfOrder)
                } else if self.transport == Transport::Tcp {
                    self.phase = Phase::AwaitingHello;
                    ClientStep { io: ClientIo::ReadHello, report: None, reset_clock: false }
                } else {
                    self.phase = Phase::Exchanging;
                    ClientStep { io: ClientIo::Exchange, report: None, reset_clock: true }
                }
            },
            ClientEvent::Hello(b) => {
                if self.phase != Phase::AwaitingHello {
                    self.fail(SessionError::OutOfOrder)
                } else {
                    match check_server_hello(b) {
                        Err(e) => self.fail(e),
                        Ok(()) => {
                            self.phase = Phase::SendingHello;
                            let hello = client_hello(self.frame.len() as u32);
                            ClientStep { io: ClientIo::SendHello(hello), report: None, reset_clock: false }
                        },
                    }
                }
            },
            ClientEvent::HelloSent => {
                if self.phase != Phase::SendingHello {
                    self.fail(SessionError::OutOfOrder)
                } else {
                    self.phase = Phase::Exchanging;
                    ClientStep { io: ClientIo::Exchange, report: None, reset_clock: true }
                }
            },
            ClientEvent::Response(resp) => {
                if self.phase != Phase::Exchanging {
                    self.fail(SessionError::OutOfOrder)
                } else {
                    match check_echo(self.frame.as_slice(), resp.as_slice()) {
                        Err(e) => self.fail(e),
                        Ok(()) => ClientStep { io: ClientIo::Exchange, report: Some(Report::Success), reset_clock: false },
                    }
                }
            },
        }
    }
}

/// The next I/O step of a server connection.
#[derive(Debug, PartialEq, Eq)]
pub enum ServerIo {
    /// Read the five greeting bytes.
    ReadHello,
    /// Read one frame of this many bytes.
    ReadFrame(usize),
    /// Write these bytes back, then read a frame of the same size.
    Echo(Vec<u8>),
    /// End the connection, cleanly or with the error.
    Close(Result<(), SessionError>),
}

/// What the transport reports to a server connection.
#[derive(Clone, Debug, PartialEq, Eq)]
pub enum ServerEvent {
    /// The bytes that were read.
    Received(Vec<u8>),
    /// The peer closed the stream.
    Eof,
    /// The read or write failed (a timeout among others), with the description.
    Failed(String),
}

/// One accepted TCP connection on the server side. The server sends the magic byte
/// first (`greeting`), then asks for the client's greeting.
pub struct ServerConn {
    frame_size: Option<usize>,
}

impl View for ServerConn {
    type V = Option<usize>;

    /// The frame size, once the client's greeting was accepted.
    closed spec fn view(&self) -> Option<usize> {
        self.frame_size
    }
}

impl ServerConn {
    /// A connection that waits for the client's greeting.
    pub fn new() -> (r: ServerConn)
        ensures
            r@ is None,
    {
        ServerConn { frame_size: None }
    }

    /// The byte that the server sends on accepting a connection.
    pub fn greeting() -> (r: Vec<u8>)
        ensures
            r@ == seq![HELLO],
    {
        let mut v: Vec<u8> = Vec::new();
        v.push(HELLO);
        v
    }

    /// The first step after the greeting is sent.
    pub fn first_io() -> (r: ServerIo)
        ensures
            r == ServerIo::ReadHello,
    {
        ServerIo::ReadHello
    }

    /// Decides on `event`: accepts the client's greeting, echoes each frame verbatim,
    /// ends cleanly when the client closes after the greeting, and ends with an error
    /// on a bad greeting, on a transport failure, or on a close before the greeting.
    pub fn step(&mut self, event: ServerEvent) -> (r: ServerIo)
        ensures
            match (old(self)@, event) {
                (_, ServerEvent::Failed(m)) => r == ServerIo::Close(Err(SessionError::Io(m)))
                    && final(self)@ == old(self)@,
                (None, ServerEvent::Eof) => r == ServerIo::Close(Err(SessionError::Closed))
                    && final(self)@ is None,
                (Some(n), ServerEvent::Eof) => r == ServerIo::Close(Ok(())) && final(self)@
                    == Some(n),
                (None, ServerEvent::Received(b)) => if b@.len() != 5 {
                    r == ServerIo::Close(Err(SessionError::OutOfOrder)) && final(self)@ is None
                } else if b@[0] != HELLO {
                    r == ServerIo::Close(Err(SessionError::InvalidHello)) && final(self)@ is None
                } else if le_u32(b@.subrange(1, 5)) < MIN_FRAME_SIZE {
                    r == ServerIo::Close(
                        Err(SessionError::InvalidFrameSize(le_u32(b@.subrange(1, 5)) as u32)),
                    ) && final(self)@ is None
                } else {
                    r == ServerIo::ReadFrame(le_u32(b@.subrange(1, 5)) as usize) && final(self)@
                        == Some(le_u32(b@.subrange(1, 5)) as usize)
                },
                (Some(n), ServerEvent::Received(b)) => final(self)@ == Some(n) && if b@.len()
                    == n {
                    r matches ServerIo::Echo(out) && out@ == b@
                } else {
                    r == ServerIo::Close(Err(SessionError::OutOfOrder))
                },
            },
    {
        match event {
            ServerEvent::Failed(m) => ServerIo::Close(Err(SessionError::Io(m))),
            ServerEvent::Eof => {
                if self.frame_size.is_some() {
                    ServerIo::Close(Ok(()))
                } else {
                    ServerIo::Close(Err(SessionError::Closed))
                }
            },
            ServerEvent::Received(b) => {
                match self.frame_size {
                    None => {
                        if b.len() != 5 {
                            return ServerIo::Close(Err(SessionError::OutOfOrder));
                        }
                        match parse_client_hello(b.as_slice()) {
                            Ok(n) => {
                                self.frame_size = Some(n);
                                ServerIo::ReadFrame(n)
                            },
                            Err(e) => ServerIo::Close(Err(e)),
                        }
                    },
                    Some(n) => {
                        if b.len() == n {
                            ServerIo::Echo(b)
                        } else {
                            ServerIo::Close(Err(SessionError::OutOfOrder))
                        }
                    },
                }
            },
        }
    }
}

} // verus!
