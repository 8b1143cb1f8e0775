use latencymon::error::ConfigError;
use latencymon::proto::{client_frame, create_frame, Proto};

#[test]
fn proto_names_are_upper_case() {
    assert_eq!(Proto::Tcp.name(), "TCP");
    assert_eq!(Proto::Udp.name(), "UDP");
    assert_eq!(Proto::Icmp.name(), "ICMP");
}

#[test]
fn icmp_has_no_frame() {
    assert_eq!(client_frame(Proto::Icmp, 1500), Ok(None));
    assert_eq!(client_frame(Proto::Icmp, 0), Ok(None));
}

#[test]
fn tcp_and_udp_frames_have_the_requested_size() {
    let f = client_frame(Proto::Tcp, 1500).unwrap().unwrap();
    assert_eq!(f.len(), 1500);
    let f = client_frame(Proto::Udp, 1).unwrap().unwrap();
    assert_eq!(f.len(), 1);
}

#[test]
fn zero_frame_size_is_a_config_error() {
    assert_eq!(client_frame(Proto::Tcp, 0), Err(ConfigError::InvalidFrameSize(0)));
    assert_eq!(client_frame(Proto::Udp, 0), Err(ConfigError::InvalidFrameSize(0)));
    assert_eq!(ConfigError::InvalidFrameSize(0).message(), "invalid frame size: 0");
    assert_eq!(ConfigError::MissingOutputOptions.message(), "output options not specified");
}

#[test]
fn frames_are_filled_with_random_bytes() {
    let a = create_frame(64);
    let b = create_frame(64);
    assert_eq!(a.len(), 64);
    assert!(a.iter().any(|&x| x != 0));
    assert_ne!(a, b);
    assert!(create_frame(0).is_empty());
}

#[test]
fn oversized_frame_message() {
    assert_eq!(
        ConfigError::FrameTooLarge(5_000_000_000).message(),
        "frame too large: 5000000000"
    );
}
