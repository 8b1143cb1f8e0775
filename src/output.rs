//! The output sink: what each iteration renders, and the pacing between iterations.
//!
//! The sink decides; the caller performs. `Output::log_iteration` returns the lines,
//! spinner bytes, chart redraws and datagrams of one iteration, and how long to wait.
use vstd::prelude::*;
use crate::chart::{chart_push, ChartBuffer, CHART_POINTS};
use crate::error::ConfigError;
use crate::pacing::{pace, sat_add, Pacer, Pause};
use crate::proto::{proto_name, Proto};
use crate::text::{decimal_chars, push_decimal, push_seconds, seconds_chars};
use crate::trap::{
    failure_message_chars,
    latency_message_chars,
    round_div,
    rounded_div,
    TrapConfig,
};

verus! {

/// The kind of output.
#[derive(Clone, Copy, Debug, PartialEq, Eq, Structural)]
pub enum Kind {
    Regular,
    Syslog,
    Chart,
    Ndjson,
    Eva4Trap,
}

impl Default for Kind {
    fn default() -> (r: Kind)
        ensures
            r == Kind::Regular,
    {
        Kind::Regular
    }
}

/// Where log records go for a kind of output.
#[derive(Clone, Copy, Debug, PartialEq, Eq, Structural)]
pub enum LogTarget {
    Stdout,
    Syslog,
    /// No logger: standard output carries only data.
    Off,
}

impl Kind {
    /// The log target: standard output for the console and chart kinds, syslog for
    /// the syslog and trap kinds, none for NDJSON.
    pub fn log_target(&self) -> (r: LogTarget)
        ensures
            r == match *self {
                Kind::Regular | Kind::Chart => LogTarget::Stdout,
                Kind::Syslog | Kind::Eva4Trap => LogTarget::Syslog,
                Kind::Ndjson => LogTarget::Off,
            },
    {
        match self {
            Kind::Regular | Kind::Chart => LogTarget::Stdout,
            Kind::Syslog | Kind::Eva4Trap => LogTarget::Syslog,
            Kind::Ndjson => LogTarget::Off,
        }
    }
}

/// The severity of a log record.
#[derive(Clone, Copy, Debug, PartialEq, Eq, Structural)]
pub enum Level {
    Error,
    Warn,
    Info,
}

/// One thing to show or send.
#[derive(Clone, Debug, PartialEq, Eq)]
pub enum Render {
    /// Erase the spinner from the terminal line.
    ClearLine,
    /// A log record.
    Log(Level, String),
    /// Bytes that draw the next spinner frame in place.
    Spinner(Vec<u8>),
    /// Redraw the chart; the field is the newest sample, in nanoseconds.
    Chart(u64),
    /// A line on standard output.
    Line(String),
    /// A datagram to the external monitor.
    Trap(String),
}

/// A `Render` with its text as sequences.
pub enum RenderView {
    ClearLine,
    Log(Level, Seq<char>),
    Spinner(Seq<u8>),
    Chart(u64),
    Line(Seq<char>),
    Trap(Seq<char>),
}

impl View for Render {
    type V = RenderView;

    open spec fn view(&self) -> RenderView {
        match self {
            Render::ClearLine => RenderView::ClearLine,
            Render::Log(l, s) => RenderView::Log(*l, s@),
            Render::Spinner(b) => RenderView::Spinner(b@),
            Render::Chart(v) => RenderView::Chart(*v),
            Render::Line(s) => RenderView::Line(s@),
            Render::Trap(s) => RenderView::Trap(s@),
        }
    }
}

/// The views of a list of renders.
pub open spec fn renders_view(v: Seq<Render>) -> Seq<RenderView> {
    v.map_values(|r: Render| r@)
}

/// What one iteration produced: renders in order, then the pause.
pub struct Iteration {
    pub renders: Vec<Render>,
    pub pause: Pause,
}

/// The spinner's frames.
pub open spec fn carousel_char(pos: nat) -> u8 {
    if pos == 0 {
        '-' as u8
    } else if pos == 1 {
        '\\' as u8
    } else if pos == 2 {
        '|' as u8
    } else {
        '/' as u8
    }
}

/// Cursor one column left, then the frame at `pos`.
pub open spec fn spinner_bytes(pos: nat) -> Seq<u8> {
    seq![0x1bu8, '[' as u8, 'D' as u8, 0u8, carousel_char(pos)]
}

/// The level at which a latency of `ns` is logged: warning from the threshold on.
pub open spec fn latency_level(ns: u64, warn: Option<u64>) -> Level {
    match warn {
        Some(w) => if ns >= w {
            Level::Warn
        } else {
            Level::Info
        },
        None => Level::Info,
    }
}

/// The log text of a latency of `ns` nanoseconds.
pub open spec fn latency_text_chars(ns: u64) -> Seq<char> {
    "latency: "@ + seconds_chars(ns as nat) + " sec ("@ + decimal_chars(
        rounded_div(ns as nat, 1_000_000),
    ) + " ms)"@
}

/// An NDJSON record: wall-clock time `t` in seconds since the Unix epoch, and the
/// latency in seconds, or `-1` for a failure.
pub open spec fn ndjson_chars(t: u64, v: Option<u64>) -> Seq<char> {
    "{\"t\":"@ + seconds_chars(t as nat) + ",\"v\":"@ + match v {
        Some(ns) => seconds_chars(ns as nat),
        None => "-1"@,
    } + "}"@
}

/// The title of the chart: the endpoint, the transport, and the frame size if any.
pub open spec fn title_chars(addr: Seq<char>, proto: Proto, frame_size: Option<usize>) -> Seq<
    char,
> {
    addr + " ("@ + proto_name(proto) + ")"@ + match frame_size {
        Some(f) => " "@ + decimal_chars(f as nat) + " bytes"@,
        None => Seq::empty(),
    }
}

/// The state of an output, as values.
pub struct OutputView {
    pub kind: Kind,
    pub trap: Option<TrapConfig>,
    pub latency_warn: Option<u64>,
    pub carousel_enabled: bool,
    pub carousel_pos: nat,
    pub pacer: Pacer,
    pub chart: Seq<u64>,
    pub title: Seq<char>,
}

/// A clear-line render where the spinner may have drawn.
pub open spec fn clear_renders(v: OutputView) -> Seq<RenderView> {
    if v.carousel_enabled {
        seq![RenderView::ClearLine]
    } else {
        Seq::empty()
    }
}

/// The renders of a successful iteration of `ns` nanoseconds at wall-clock time `t`.
/// The chart takes the sample, NDJSON writes a record, the trap sends the value. The
/// console and syslog outputs log it, at warning level from the threshold on and at
/// informational level otherwise; below a threshold, on a terminal, the spinner also
/// moves on by one frame.
pub open spec fn success_renders(v: OutputView, ns: u64, t: u64) -> Seq<RenderView> {
    match v.kind {
        Kind::Chart => seq![RenderView::Chart(ns)],
        Kind::Ndjson => seq![RenderView::Line(ndjson_chars(t, Some(ns)))],
        Kind::Eva4Trap => match v.trap {
            Some(c) => seq![RenderView::Trap(latency_message_chars(c.oid@, c.units, ns))],
            None => Seq::empty(),
        },
        Kind::Regular | Kind::Syslog => {
            let level = latency_level(ns, v.latency_warn);
            clear_renders(v) + seq![RenderView::Log(level, latency_text_chars(ns))] + if level
                == Level::Info && v.latency_warn is Some && v.carousel_enabled {
                seq![RenderView::Spinner(spinner_bytes(v.carousel_pos))]
            } else {
                Seq::empty()
            }
        },
    }
}

/// The renders of a failed iteration with message `msg` at wall-clock time `t`.
pub open spec fn failure_renders(v: OutputView, msg: Seq<char>, t: u64) -> Seq<RenderView> {
    match v.kind {
        Kind::Ndjson => seq![RenderView::Line(ndjson_chars(t, None))],
        _ => clear_renders(v) + seq![RenderView::Log(Level::Error, msg)] + match v.trap {
            Some(c) => seq![RenderView::Trap(failure_message_chars(c.oid@))],
            None => Seq::empty(),
        },
    }
}

/// The renders when an iteration overran its deadline: a warning, but for the chart
/// and NDJSON outputs, whose screen or stream it would disturb.
pub open spec fn overrun_renders(v: OutputView) -> Seq<RenderView> {
    if v.kind == Kind::Chart || v.kind == Kind::Ndjson {
        Seq::empty()
    } else {
        clear_renders(v) + seq![RenderView::Log(Level::Warn, "loop timeout"@)]
    }
}

/// The latency of the iteration that ends at `now`.
pub open spec fn elapsed_of(v: OutputView, now: u64) -> u64 {
    if now >= v.pacer.started {
        (now - v.pacer.started) as u64
    } else {
        0
    }
}

/// The state after an iteration ending at `now`, before the next one starts.
pub open spec fn after_iteration(v: OutputView, failed: bool, now: u64) -> OutputView {
    let ns = elapsed_of(v, now);
    OutputView {
        chart: if !failed && v.kind == Kind::Chart {
            chart_push(v.chart, ns)
        } else {
            v.chart
        },
        carousel_pos: if !failed && v.kind != Kind::Chart {
            (v.carousel_pos + 1) % 4
        } else {
            v.carousel_pos
        },
        pacer: pace(v.pacer, now).0,
        ..v
    }
}

/// All renders of an iteration ending at `now`: the outcome's, then the overrun
/// warning if the deadline was missed.
pub open spec fn iteration_renders(v: OutputView, failure: Option<Seq<char>>, now: u64, t: u64) -> Seq<
    RenderView,
> {
    let outcome = match failure {
        Some(msg) => failure_renders(v, msg, t),
        None => success_renders(v, elapsed_of(v, now), t),
    };
    outcome + if pace(v.pacer, now).1 == Pause::Overrun {
        overrun_renders(v)
    } else {
        Seq::empty()
    }
}

/// Whether a render is a log record at warning level.
pub open spec fn is_warning(r: RenderView) -> bool {
    r matches RenderView::Log(level, _) && level == Level::Warn
}

/// The warning threshold is inclusive: on a console or syslog output with threshold
/// `w`, a success of `ns` nanoseconds renders a warning exactly when `ns >= w`; below
/// it, the record is informational.
pub proof fn lemma_warn_threshold(v: OutputView, ns: u64, t: u64, w: u64)
    requires
        v.kind == Kind::Regular || v.kind == Kind::Syslog,
        v.latency_warn == Some(w),
    ensures
        (exists|i: int|
            0 <= i < success_renders(v, ns, t).len() && #[trigger] is_warning(
                success_renders(v, ns, t)[i],
            )) <==> ns >= w,
        ns < w ==> success_renders(v, ns, t).contains(
            RenderView::Log(Level::Info, latency_text_chars(ns)),
        ),
{
    let r = success_renders(v, ns, t);
    let c = clear_renders(v).len() as int;
    assert(r[c] == RenderView::Log(latency_level(ns, v.latency_warn), latency_text_chars(ns)));
    if ns >= w {
        assert(is_warning(r[c]));
    } else {
        assert forall|i: int| 0 <= i < r.len() implies !#[trigger] is_warning(r[i]) by {
            if v.carousel_enabled {
                assert(r =~= seq![
                    RenderView::ClearLine,
                    RenderView::Log(Level::Info, latency_text_chars(ns)),
                    RenderView::Spinner(spinner_bytes(v.carousel_pos)),
                ]);
            } else {
                assert(r =~= seq![RenderView::Log(Level::Info, latency_text_chars(ns))]);
            }
        }
    }
}

/// The NDJSON output writes one record per iteration: a failure gives `"v":-1`, a
/// success gives its latency in seconds.
pub proof fn lemma_ndjson_records(v: OutputView, msg: Seq<char>, ns: u64, t: u64)
    requires
        v.kind == Kind::Ndjson,
    ensures
        failure_renders(v, msg, t) == seq![
            RenderView::Line("{\"t\":"@ + seconds_chars(t as nat) + ",\"v\":-1}"@),
        ],
        success_renders(v, ns, t) == seq![
            RenderView::Line(
                "{\"t\":"@ + seconds_chars(t as nat) + ",\"v\":"@ + seconds_chars(ns as nat) + "}"@,
            ),
        ],
{
    reveal_strlit("-1");
    reveal_strlit("}");
    reveal_strlit(",\"v\":");
    reveal_strlit(",\"v\":-1}");
    assert(ndjson_chars(t, None) =~= "{\"t\":"@ + seconds_chars(t as nat) + ",\"v\":-1}"@);
    assert(ndjson_chars(t, Some(ns)) =~= "{\"t\":"@ + seconds_chars(t as nat) + ",\"v\":"@
        + seconds_chars(ns as nat) + "}"@);
}

/// The output sink of a client.
pub struct Output {
    kind: Kind,
    trap: Option<TrapConfig>,
    latency_warn: Option<u64>,
    carousel_enabled: bool,
    carousel_pos: usize,
    pacer: Pacer,
    chart: ChartBuffer,
    title: String,
}

impl View for Output {
    type V = OutputView;

    closed spec fn view(&self) -> OutputView {
        OutputView {
            kind: self.kind,
            trap: self.trap,
            latency_warn: self.latency_warn,
            carousel_enabled: self.carousel_enabled,
            carousel_pos: self.carousel_pos as nat,
            pacer: self.pacer,
            chart: self.chart@,
            title: self.title@,
        }
    }
}

fn push_render(v: &mut Vec<Render>, r: Render)
    ensures
        renders_view(final(v)@) == renders_view(old(v)@).push(r@),
{
    let ghost rv = r@;
    v.push(r);
    assert(renders_view(v@) =~= renders_view(old(v)@).push(rv));
}

fn carousel_byte(pos: usize) -> (r: u8)
    ensures
        r == carousel_char(pos as nat),
{
    if pos == 0 {
        '-' as u8
    } else if pos == 1 {
        '\\' as u8
    } else if pos == 2 {
        '|' as u8
    } else {
        '/' as u8
    }
}

/// The bytes that draw the spinner frame at `pos`.
pub fn spinner(pos: usize) -> (r: Vec<u8>)
    ensures
        r@ == spinner_bytes(pos as nat),
{
    let mut b: Vec<u8> = Vec::new();
    b.push(0x1b);
    b.push('[' as u8);
    b.push('D' as u8);
    b.push(0);
    b.push(carousel_byte(pos));
    assert(b@ =~= spinner_bytes(pos as nat));
    b
}

/// The log text of a latency of `ns` nanoseconds.
pub fn latency_text(ns: u64) -> (r: String)
    ensures
        r@ == latency_text_chars(ns),
{
    let mut s = String::from_str("latency: ");
    push_seconds(&mut s, ns);
    s.append(" sec (");
    push_decimal(&mut s, round_div(ns, 1_000_000));
    s.append(" ms)");
    s
}

/// An NDJSON record at wall-clock time `t` (nanoseconds since the Unix epoch) for a
/// latency of `v` nanoseconds, or for a failure.
pub fn ndjson_line(t: u64, v: Option<u64>) -> (r: String)
    ensures
        r@ == ndjson_chars(t, v),
{
    let mut s = String::from_str("{\"t\":");
    push_seconds(&mut s, t);
    s.append(",\"v\":");
    match v {
        Some(ns) => push_seconds(&mut s, ns),
        None => s.append("-1"),
    }
    s.append("}");
    s
}

impl Output {
    /// The invariant of an output.
    pub open spec fn wf(&self) -> bool {
        &&& self@.carousel_pos < 4
        &&& self@.chart.len() == CHART_POINTS
        &&& self@.kind == Kind::Eva4Trap <==> self@.trap is Some
    }

    /// A sink of `kind` for a client of `proto` towards `addr` (its text), which starts
    /// measuring at `now`. The trap kind needs its configuration; the others drop it.
    pub fn create(
        kind: Kind,
        trap: Option<TrapConfig>,
        addr: &str,
        proto: Proto,
        frame_size: Option<usize>,
        interval: u64,
        latency_warn: Option<u64>,
        carousel_enabled: bool,
        now: u64,
    ) -> (r: Result<Output, ConfigError>)
        ensures
            r is Err <==> kind == Kind::Eva4Trap && trap is None,
            r is Err ==> r == Err::<Output, ConfigError>(ConfigError::MissingOutputOptions),
            r matches Ok(o) ==> {
                &&& o.wf()
                &&& o@.kind == kind
                &&& o@.trap == if kind == Kind::Eva4Trap {
                    trap
                } else {
                    None
                }
                &&& o@.latency_warn == latency_warn
                &&& o@.carousel_enabled == carousel_enabled
                &&& o@.carousel_pos == 0
                &&& o@.pacer == Pacer { interval, next: sat_add(now, interval), started: now }
                &&& o@.chart == Seq::new(CHART_POINTS as nat, |i: int| 0u64)
                &&& o@.title == title_chars(addr@, proto, frame_size)
            },
    {
        let trap = if kind == Kind::Eva4Trap {
            match trap {
                Some(c) => Some(c),
                None => {
                    return Err(ConfigError::MissingOutputOptions);
                },
            }
        } else {
            None
        };
        let mut title = String::from_str(addr);
        title.append(" (");
        title.append(proto.name());
        title.append(")");
        match frame_size {
            Some(f) => {
                title.append(" ");
                push_decimal(&mut title, f as u64);
                title.append(" bytes");
            },
            None => {},
        }
        Ok(
            Output {
                kind,
                trap,
                latency_warn,
                carousel_enabled,
                carousel_pos: 0,
                pacer: Pacer::new(interval, now),
                chart: ChartBuffer::new(),
                title,
            },
        )
    }

    /// Restarts the measurement and the cadence at `now`, as a new session does.
    pub fn reset(&mut self, now: u64)
        requires
            old(self).wf(),
        ensures
            final(self).wf(),
            final(self)@ == (OutputView {
                pacer: Pacer {
                    interval: old(self)@.pacer.interval,
                    next: sat_add(now, old(self)@.pacer.interval),
                    started: now,
                },
                ..old(self)@
            }),
    {
        self.pacer.reset(now);
    }

    /// Begins the next measurement at `now`, once the pause is over.
    pub fn start_iteration(&mut self, now: u64)
        requires
            old(self).wf(),
        ensures
            final(self).wf(),
            final(self)@ == (OutputView {
                pacer: Pacer { started: now, ..old(self)@.pacer },
                ..old(self)@
            }),
    {
        self.pacer.start(now);
    }

    /// Reports one iteration that ended at `now` (monotonic) and `wall_clock`
    /// (nanoseconds since the Unix epoch): a failure with its message, or a success
    /// whose latency is the time since the measurement began. Returns what to render
    /// and the pause before the next iteration.
    pub fn log_iteration(&mut self, failure: Option<String>, now: u64, wall_clock: u64) -> (r:
        Iteration)
        requires
            old(self).wf(),
        ensures
            final(self).wf(),
            final(self)@ == after_iteration(old(self)@, failure is Some, now),
            r.pause == pace(old(self)@.pacer, now).1,
            renders_view(r.renders@) == iteration_renders(
                old(self)@,
                match failure {
                    Some(m) => Some(m@),
                    None => None,
                },
                now,
                wall_clock,
            ),
    {
        let ghost v = self@;
        let mut renders: Vec<Render> = Vec::new();
        match failure {
            Some(msg) => self.render_failure(msg, wall_clock, &mut renders),
            None => {
                let ns = self.pacer.elapsed(now);
                self.render_success(ns, wall_clock, &mut renders);
            },
        }
        let pause = self.pacer.finish(now);
        if pause == Pause::Overrun && self.kind != Kind::Chart && self.kind != Kind::Ndjson {
            if self.carousel_enabled {
                push_render(&mut renders, Render::ClearLine);
            }
            proof {
                reveal_strlit("loop timeout");
            }
            push_render(&mut renders, Render::Log(Level::Warn, String::from_str("loop timeout")));
        }
        assert(renders_view(renders@) =~= iteration_renders(
            v,
            match failure {
                Some(m) => Some(m@),
                None => None,
            },
            now,
            wall_clock,
        ));
        Iteration { renders, pause }
    }

    fn render_failure(&self, msg: String, t: u64, out: &mut Vec<Render>)
        requires
            self.wf(),
            old(out)@.len() == 0,
        ensures
            renders_view(final(out)@) == failure_renders(self@, msg@, t),
    {
        let ghost m = msg@;
        if self.kind == Kind::Ndjson {
            push_render(out, Render::Line(ndjson_line(t, None)));
        } else {
            if self.carousel_enabled {
                push_render(out, Render::ClearLine);
            }
            push_render(out, Render::Log(Level::Error, msg));
            match &self.trap {
                Some(c) => push_render(out, Render::Trap(c.failure_message())),
                None => {},
            }
        }
        assert(renders_view(out@) =~= failure_renders(self@, m, t));
    }

    fn render_success(&mut self, ns: u64, t: u64, out: &mut Vec<Render>)
        requires
            old(self).wf(),
            old(out)@.len() == 0,
        ensures
            final(self).wf(),
            final(self)@ == (OutputView {
                chart: if old(self)@.kind == Kind::Chart {
                    chart_push(old(self)@.chart, ns)
                } else {
                    old(self)@.chart
                },
                carousel_pos: if old(self)@.kind != Kind::Chart {
                    (old(self)@.carousel_pos + 1) % 4
                } else {
                    old(self)@.carousel_pos
                },
                ..old(self)@
            }),
            renders_view(final(out)@) == success_renders(old(self)@, ns, t),
    {
        match self.kind {
            Kind::Chart => {
                self.chart.push(ns);
                push_render(out, Render::Chart(ns));
            },
            Kind::Ndjson => {
                push_render(out, Render::Line(ndjson_line(t, Some(ns))));
            },
            Kind::Eva4Trap => {
                match &self.trap {
                    Some(c) => push_render(out, Render::Trap(c.latency_message(ns))),
                    None => {},
                }
            },
            Kind::Regular | Kind::Syslog => {
                let warn = match self.latency_warn {
                    Some(w) => ns >= w,
                    None => false,
                };
                if self.carousel_enabled {
                    push_render(out, Render::ClearLine);
                }
                let level = if warn {
                    Level::Warn
                } else {
                    Level::Info
                };
                push_render(out, Render::Log(level, latency_text(ns)));
                if !warn && self.latency_warn.is_some() && self.carousel_enabled {
                    push_render(out, Render::Spinner(spinner(self.carousel_pos)));
                }
            },
        }
        if self.kind != Kind::Chart {
            self.carousel_pos = if self.carousel_pos + 1 >= 4 {
                0
            } else {
                self.carousel_pos + 1
            };
        }
        assert(renders_view(out@) =~= success_renders(old(self)@, ns, t));
    }

    /// The chart title.
    pub fn title(&self) -> (r: &str)
        ensures
            r@ == self@.title,
    {
        self.title.as_str()
    }

    /// The pacing state.
    pub fn pacer(&self) -> (r: Pacer)
        ensures
            r == self@.pacer,
    {
        self.pacer
    }

    /// The last `width` chart samples, oldest first.
    pub fn chart_points(&self, width: usize) -> (r: Vec<u64>)
        ensures
            r@ == crate::chart::last_samples(self@.chart, width as nat),
    {
        self.chart.window(width)
    }
}

} // verus!
