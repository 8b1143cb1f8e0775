use latencymon::error::SessionError;
use latencymon::handshake::{check_echo, check_server_hello, client_hello, parse_client_hello};
use latencymon::proto::HELLO;

#[test]
fn client_hello_is_magic_then_little_endian_size() {
    assert_eq!(client_hello(1500), vec![0xEE, 0xDC, 0x05, 0x00, 0x00]);
    assert_eq!(client_hello(1), vec![0xEE, 1, 0, 0, 0]);
    assert_eq!(client_hello(u32::MAX), vec![0xEE, 0xFF, 0xFF, 0xFF, 0xFF]);
}

#[test]
fn server_reads_back_the_client_hello() {
    for n in [1u32, 255, 256, 1500, 65_536, 16_777_216, u32::MAX] {
        assert_eq!(parse_client_hello(&client_hello(n)), Ok(n as usize));
    }
}

#[test]
fn server_rejects_bad_magic_byte() {
    assert_eq!(parse_client_hello(&[0xEF, 0xDC, 0x05, 0, 0]), Err(SessionError::InvalidHello));
    assert_eq!(parse_client_hello(&[0x00, 0, 0, 0, 0]), Err(SessionError::InvalidHello));
}

#[test]
fn server_rejects_empty_frame_size() {
    assert_eq!(parse_client_hello(&[HELLO, 0, 0, 0, 0]), Err(SessionError::InvalidFrameSize(0)));
}

#[test]
fn client_checks_server_magic_byte() {
    assert_eq!(check_server_hello(0xEE), Ok(()));
    assert_eq!(check_server_hello(0xEF), Err(SessionError::InvalidHello));
}

#[test]
fn echo_must_match_byte_for_byte() {
    assert_eq!(check_echo(&[1, 2, 3], &[1, 2, 3]), Ok(()));
    assert_eq!(check_echo(&[1, 2, 3], &[1, 2, 4]), Err(SessionError::InvalidPacket));
    assert_eq!(check_echo(&[1, 2, 3], &[1, 2]), Err(SessionError::InvalidPacket));
    assert_eq!(check_echo(&[1, 2, 3], &[1, 2, 3, 4]), Err(SessionError::InvalidPacket));
}

#[test]
fn session_error_messages() {
    assert_eq!(SessionError::InvalidHello.message(), "invalid hello");
    assert_eq!(SessionError::InvalidPacket.message(), "invalid packet");
    assert_eq!(SessionError::InvalidFrameSize(0).message(), "invalid frame size: 0");
    assert_eq!(SessionError::Io("timed out".to_string()).message(), "timed out");
}
