use latencymon::chart::CHART_POINTS;
use latencymon::error::ConfigError;
use latencymon::output::{Kind, Level, LogTarget, Output, Render};
use latencymon::pacing::{Pacer, Pause};
use latencymon::proto::Proto;
use latencymon::trap::{TrapConfig, Units};

const MS: u64 = 1_000_000;

fn sink(kind: Kind, warn: Option<u64>, carousel: bool) -> Output {
    let trap = Some(TrapConfig { oid: "sensor:lat".to_string(), units: Units::Ms });
    Output::create(kind, trap, "10.0.0.1:7000", Proto::Tcp, Some(1500), 1_000 * MS, warn, carousel, 0)
        .unwrap()
}

fn log(level: Level, text: &str) -> Render {
    Render::Log(level, text.to_string())
}

#[test]
fn trap_output_needs_its_options() {
    let r = Output::create(Kind::Eva4Trap, None, "h", Proto::Udp, None, MS, None, false, 0);
    assert_eq!(r.err(), Some(ConfigError::MissingOutputOptions));
}

#[test]
fn title_names_endpoint_transport_and_frame_size() {
    let o = sink(Kind::Regular, None, false);
    assert_eq!(o.title(), "10.0.0.1:7000 (TCP) 1500 bytes");
    let o = Output::create(Kind::Regular, None, "10.0.0.1", Proto::Icmp, None, MS, None, false, 0)
        .unwrap();
    assert_eq!(o.title(), "10.0.0.1 (ICMP)");
    assert_eq!(o.pacer(), Pacer { interval: MS, next: MS, started: 0 });
}

#[test]
fn below_threshold_logs_info_at_threshold_warns() {
    let mut o = sink(Kind::Regular, Some(20 * MS), false);
    let it = o.log_iteration(None, 20 * MS - 1, 0);
    assert_eq!(it.renders, vec![log(Level::Info, "latency: 0.019999999 sec (20 ms)")]);
    o.start_iteration(1_000 * MS);
    let it = o.log_iteration(None, 1_020 * MS, 0);
    assert_eq!(it.renders, vec![log(Level::Warn, "latency: 0.02 sec (20 ms)")]);
    o.start_iteration(2_000 * MS);
    let it = o.log_iteration(None, 2_500 * MS, 0);
    assert_eq!(it.renders, vec![log(Level::Warn, "latency: 0.5 sec (500 ms)")]);
}

#[test]
fn without_threshold_every_success_is_info() {
    let mut o = sink(Kind::Syslog, None, true);
    let it = o.log_iteration(None, 900 * MS, 0);
    assert_eq!(it.renders, vec![Render::ClearLine, log(Level::Info, "latency: 0.9 sec (900 ms)")]);
    assert_eq!(it.pause, Pause::Sleep(100 * MS));
}

#[test]
fn spinner_cycles_below_threshold_on_a_terminal() {
    let mut o = sink(Kind::Regular, Some(500 * MS), true);
    let frames = [b'-', b'\\', b'|', b'/', b'-'];
    for (k, f) in frames.iter().enumerate() {
        let start = k as u64 * 1_000 * MS;
        o.start_iteration(start);
        let it = o.log_iteration(None, start + 10 * MS, 0);
        assert_eq!(it.renders.len(), 3);
        assert_eq!(it.renders[0], Render::ClearLine);
        assert_eq!(it.renders[1], log(Level::Info, "latency: 0.01 sec (10 ms)"));
        assert_eq!(it.renders[2], Render::Spinner(vec![0x1b, b'[', b'D', 0, *f]));
    }
}

#[test]
fn ndjson_failure_reports_minus_one() {
    let mut o = sink(Kind::Ndjson, None, false);
    let it = o.log_iteration(Some("connection refused".to_string()), 0, 1_700_000_000_500_000_000);
    assert_eq!(it.renders, vec![Render::Line("{\"t\":1700000000.5,\"v\":-1}".to_string())]);
}

#[test]
fn ndjson_success_reports_seconds() {
    let mut o = sink(Kind::Ndjson, Some(MS), true);
    let it = o.log_iteration(None, 25 * MS, 1_700_000_000_000_000_000);
    assert_eq!(it.renders, vec![Render::Line("{\"t\":1700000000,\"v\":0.025}".to_string())]);
}

#[test]
fn chart_output_pushes_the_sample() {
    let mut o = sink(Kind::Chart, None, true);
    let it = o.log_iteration(None, 42 * MS, 0);
    assert_eq!(it.renders, vec![Render::Chart(42 * MS)]);
    let points = o.chart_points(CHART_POINTS);
    assert_eq!(points.len(), 1000);
    assert_eq!(points[999], 42 * MS);
    assert_eq!(points[998], 0);
    let it = o.log_iteration(Some("timed out".to_string()), 1_000 * MS, 0);
    assert_eq!(it.renders, vec![Render::ClearLine, log(Level::Error, "timed out")]);
    assert_eq!(o.chart_points(1), vec![42 * MS]);
}

#[test]
fn trap_output_sends_values_and_failures() {
    let mut o = sink(Kind::Eva4Trap, None, false);
    let it = o.log_iteration(None, 123_400_000, 0);
    assert_eq!(it.renders, vec![Render::Trap("u sensor:lat 1 123".to_string())]);
    let it = o.log_iteration(Some("invalid packet".to_string()), 1_000 * MS, 0);
    assert_eq!(
        it.renders,
        vec![log(Level::Error, "invalid packet"), Render::Trap("u sensor:lat -1".to_string())]
    );
}

#[test]
fn overrun_warns_except_on_chart_and_ndjson() {
    let mut o = sink(Kind::Regular, None, false);
    let it = o.log_iteration(None, 1_500 * MS, 0);
    assert_eq!(it.pause, Pause::Overrun);
    assert_eq!(
        it.renders,
        vec![log(Level::Info, "latency: 1.5 sec (1500 ms)"), log(Level::Warn, "loop timeout")]
    );
    assert_eq!(o.pacer().next, 2_500 * MS);
    let mut o = sink(Kind::Chart, None, false);
    assert_eq!(o.log_iteration(None, 1_500 * MS, 0).renders, vec![Render::Chart(1_500 * MS)]);
    let mut o = sink(Kind::Ndjson, None, false);
    let it = o.log_iteration(Some("x".to_string()), 1_500 * MS, 0);
    assert_eq!(it.renders, vec![Render::Line("{\"t\":0,\"v\":-1}".to_string())]);
}

#[test]
fn reset_restarts_measurement() {
    let mut o = sink(Kind::Regular, None, false);
    o.reset(5_000 * MS);
    assert_eq!(o.pacer(), Pacer { interval: 1_000 * MS, next: 6_000 * MS, started: 5_000 * MS });
    let it = o.log_iteration(None, 5_003 * MS, 0);
    assert_eq!(it.renders, vec![log(Level::Info, "latency: 0.003 sec (3 ms)")]);
    assert_eq!(it.pause, Pause::Sleep(997 * MS));
}

#[test]
fn log_targets_per_kind() {
    assert_eq!(Kind::Regular.log_target(), LogTarget::Stdout);
    assert_eq!(Kind::Chart.log_target(), LogTarget::Stdout);
    assert_eq!(Kind::Syslog.log_target(), LogTarget::Syslog);
    assert_eq!(Kind::Eva4Trap.log_target(), LogTarget::Syslog);
    assert_eq!(Kind::Ndjson.log_target(), LogTarget::Off);
    assert_eq!(Kind::default(), Kind::Regular);
}
