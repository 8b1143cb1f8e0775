use latencymon::error::{ConfigError, SessionError};
use latencymon::handshake::client_hello;
use latencymon::session::{
    ClientEvent, ClientIo, ClientSession, Phase, Report, ServerConn, ServerEvent, ServerIo,
    Transport,
};

fn tcp_session(frame: &[u8]) -> ClientSession {
    ClientSession::new(Transport::Tcp, frame.to_vec()).unwrap()
}

#[test]
fn tcp_client_handshakes_then_exchanges() {
    let frame = vec![9u8; 1500];
    let mut s = tcp_session(&frame);
    let st = s.step(ClientEvent::Opened);
    assert_eq!((st.io, st.report, st.reset_clock), (ClientIo::ReadHello, None, false));
    let st = s.step(ClientEvent::Hello(0xEE));
    assert_eq!(st.io, ClientIo::SendHello(client_hello(1500)));
    assert_eq!(st.report, None);
    let st = s.step(ClientEvent::HelloSent);
    assert_eq!((st.io, st.report, st.reset_clock), (ClientIo::Exchange, None, true));
    assert_eq!(s.phase(), Phase::Exchanging);
    for _ in 0..3 {
        let st = s.step(ClientEvent::Response(frame.clone()));
        assert_eq!(st.io, ClientIo::Exchange);
        assert_eq!(st.report, Some(Report::Success));
    }
    assert_eq!(s.frame(), &frame[..]);
}

#[test]
fn tcp_client_rejects_bad_magic_before_any_frame() {
    let mut s = tcp_session(&[1, 2, 3]);
    s.step(ClientEvent::Opened);
    let st = s.step(ClientEvent::Hello(0x00));
    assert_eq!(st.io, ClientIo::Open);
    assert_eq!(st.report, Some(Report::Failure(SessionError::InvalidHello)));
    assert_eq!(s.phase(), Phase::Closed);
    let st = s.step(ClientEvent::Response(vec![1, 2, 3]));
    assert_eq!(st.report, Some(Report::Failure(SessionError::OutOfOrder)));
}

#[test]
fn mismatched_echo_is_an_integrity_failure() {
    let mut s = ClientSession::new(Transport::Udp, vec![1, 2, 3]).unwrap();
    let st = s.step(ClientEvent::Opened);
    assert_eq!((st.io, st.reset_clock), (ClientIo::Exchange, true));
    let st = s.step(ClientEvent::Response(vec![1, 2, 4]));
    assert_eq!(st.io, ClientIo::Open);
    assert_eq!(st.report, Some(Report::Failure(SessionError::InvalidPacket)));
    s.step(ClientEvent::Opened);
    let st = s.step(ClientEvent::Response(vec![1, 2]));
    assert_eq!(st.report, Some(Report::Failure(SessionError::InvalidPacket)));
    s.step(ClientEvent::Opened);
    let st = s.step(ClientEvent::Response(vec![1, 2, 3, 0]));
    assert_eq!(st.report, Some(Report::Failure(SessionError::InvalidPacket)));
}

#[test]
fn transport_failure_closes_the_session() {
    let mut s = tcp_session(&[7]);
    s.step(ClientEvent::Opened);
    let st = s.step(ClientEvent::Failed("connection refused".to_string()));
    assert_eq!(st.io, ClientIo::Open);
    assert_eq!(
        st.report,
        Some(Report::Failure(SessionError::Io("connection refused".to_string())))
    );
    assert_eq!(s.phase(), Phase::Closed);
}

#[test]
fn empty_frame_is_refused() {
    assert_eq!(
        ClientSession::new(Transport::Tcp, Vec::new()).err(),
        Some(ConfigError::InvalidFrameSize(0))
    );
}

#[test]
fn server_accepts_greeting_and_echoes_frames() {
    assert_eq!(ServerConn::greeting(), vec![0xEE]);
    assert_eq!(ServerConn::first_io(), ServerIo::ReadHello);
    let mut c = ServerConn::new();
    assert_eq!(c.step(ServerEvent::Received(client_hello(4))), ServerIo::ReadFrame(4));
    assert_eq!(c.step(ServerEvent::Received(vec![4, 3, 2, 1])), ServerIo::Echo(vec![4, 3, 2, 1]));
    assert_eq!(c.step(ServerEvent::Received(vec![4, 3])), ServerIo::Close(Err(SessionError::OutOfOrder)));
    assert_eq!(c.step(ServerEvent::Eof), ServerIo::Close(Ok(())));
}

#[test]
fn server_rejects_bad_greetings() {
    let mut c = ServerConn::new();
    assert_eq!(
        c.step(ServerEvent::Received(vec![0x01, 4, 0, 0, 0])),
        ServerIo::Close(Err(SessionError::InvalidHello))
    );
    let mut c = ServerConn::new();
    assert_eq!(
        c.step(ServerEvent::Received(vec![0xEE, 0, 0, 0, 0])),
        ServerIo::Close(Err(SessionError::InvalidFrameSize(0)))
    );
    let mut c = ServerConn::new();
    assert_eq!(c.step(ServerEvent::Eof), ServerIo::Close(Err(SessionError::Closed)));
    let mut c = ServerConn::new();
    assert_eq!(
        c.step(ServerEvent::Failed("timed out".to_string())),
        ServerIo::Close(Err(SessionError::Io("timed out".to_string())))
    );
}
