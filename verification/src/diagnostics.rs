//! Health bookkeeping of the game loop: how many frames ran, how long the
//! player spent ticking, rendering and running tasks, and when the next
//! heartbeat or memory check is due. Durations are whole nanoseconds.
use vstd::prelude::*;
use std::time::Instant;
use crate::text::{decimal, digit_char, push_decimal};

verus! {

/// The longest `Duration`: `u64::MAX` seconds and 999,999,999 nanoseconds.
pub const DURATION_MAX_NANOS: u128 = 18_446_744_073_709_551_615_999_999_999;

/// One second, in nanoseconds.
pub const NANOS_PER_SEC: u128 = 1_000_000_000;

/// `std::time::Instant`, a reading of the monotonic clock, carried through
/// as an opaque value.
#[verifier::external_type_specification]
#[verifier::external_body]
pub struct ExInstant(Instant);

/// `std::time::Instant::now`: a reading of the monotonic clock. Nothing is
/// stated of it; it only serves as the start of later measurements.
#[verifier::external_body]
fn instant_now() -> Instant {
    Instant::now()
}

/// `std::time::Instant::elapsed` of `start`, as whole nanoseconds
/// (`Duration::as_nanos`). The value depends on the clock; what holds of
/// every result is that it is a `Duration`, so no longer than
/// `DURATION_MAX_NANOS`.
#[verifier::external_body]
fn nanos_since(start: &Instant) -> (r: u128)
    ensures
        r <= DURATION_MAX_NANOS,
{
    start.elapsed().as_nanos()
}

/// The time from reading `start` to reading `now`, both in nanoseconds
/// since the same epoch; zero when `now` is not later, as `Instant`
/// measures it.
pub open spec fn since(now: u128, start: u128) -> u128 {
    if now >= start {
        (now - start) as u128
    } else {
        0
    }
}

/// `s` after its tick is marked finished at the reading `now`: when a tick
/// was started, the time from its start to `now` is the last tick's time and
/// is added to the heartbeat's total (which stops growing at the largest
/// `u128`).
pub open spec fn tick_ended(s: DiagnosticsState, now: u128) -> DiagnosticsState {
    match s.tick_start {
        Some(start) => DiagnosticsState {
            tick_in_progress: false,
            tick_start: None,
            last_tick_time: since(now, start),
            tick_time: s.tick_time.saturating_add(since(now, start)),
            ..s
        },
        None => DiagnosticsState { tick_in_progress: false, ..s },
    }
}

/// `s` after its render is marked finished at the reading `now` and counted:
/// when a render was started, the time from its start to `now` is the last
/// render's time and is added to the heartbeat's total.
pub open spec fn render_ended(s: DiagnosticsState, now: u128) -> DiagnosticsState {
    match s.render_start {
        Some(start) => DiagnosticsState {
            render_in_progress: false,
            render_start: None,
            render_count: (s.render_count + 1) as u64,
            last_render_time: since(now, start),
            render_time: s.render_time.saturating_add(since(now, start)),
            ..s
        },
        None => DiagnosticsState {
            render_in_progress: false,
            render_count: (s.render_count + 1) as u64,
            ..s
        },
    }
}

/// Game loop health metrics, kept to diagnose freezes. Points in time are
/// nanoseconds since `epoch`, the moment the metrics were created.
pub struct DiagnosticsState {
    /// Frames processed since the game was launched.
    pub frame_count: u64,
    /// Nanoseconds spent ticking the player since the last heartbeat.
    pub tick_time: u128,
    /// Nanoseconds spent rendering since the last heartbeat.
    pub render_time: u128,
    /// Nanoseconds spent running pending tasks since the last heartbeat.
    pub executor_time: u128,
    /// Renders performed since the last heartbeat.
    pub render_count: u64,
    /// The clock reading all points in time below count from.
    pub epoch: Instant,
    /// When the last heartbeat was logged.
    pub last_heartbeat: u128,
    /// When the game was launched.
    pub game_start: u128,
    /// Nanoseconds between heartbeats.
    pub heartbeat_interval: u128,
    /// Nanoseconds between memory checks.
    pub memory_interval: u128,
    /// When memory was last checked.
    pub last_memory_check: u128,
    /// Nanoseconds the last tick took.
    pub last_tick_time: u128,
    /// Nanoseconds the last render took.
    pub last_render_time: u128,
    /// Nanoseconds of the last time step handed to the player.
    pub last_dt: u128,
    /// Whether a tick is under way.
    pub tick_in_progress: bool,
    /// Whether a render is under way.
    pub render_in_progress: bool,
    /// When the tick under way started.
    pub tick_start: Option<u128>,
    /// When the render under way started.
    pub render_start: Option<u128>,
}

impl DiagnosticsState {
    /// Fresh metrics: nothing counted, heartbeats every second, memory
    /// checks every five seconds, the clock starting now (at 0).
    pub fn new() -> (r: Self)
        ensures
            r.frame_count == 0,
            r.tick_time == 0,
            r.render_time == 0,
            r.executor_time == 0,
            r.render_count == 0,
            r.last_heartbeat == 0,
            r.game_start == 0,
            r.heartbeat_interval == NANOS_PER_SEC,
            r.memory_interval == 5 * NANOS_PER_SEC,
            r.last_memory_check == 0,
            r.last_tick_time == 0,
            r.last_render_time == 0,
            r.last_dt == 0,
            !r.tick_in_progress,
            !r.render_in_progress,
            r.tick_start is None,
            r.render_start is None,
    {
        DiagnosticsState {
            frame_count: 0,
            tick_time: 0,
            render_time: 0,
            executor_time: 0,
            render_count: 0,
            epoch: instant_now(),
            last_heartbeat: 0,
            game_start: 0,
            heartbeat_interval: NANOS_PER_SEC,
            memory_interval: 5 * NANOS_PER_SEC,
            last_memory_check: 0,
            last_tick_time: 0,
            last_render_time: 0,
            last_dt: 0,
            tick_in_progress: false,
            render_in_progress: false,
            tick_start: None,
            render_start: None,
        }
    }

    /// Reads the clock: nanoseconds since `epoch`. This is the one place
    /// the metrics read the clock; every other function takes the reading.
    pub fn now(&self) -> (r: u128)
        ensures
            r <= DURATION_MAX_NANOS,
    {
        nanos_since(&self.epoch)
    }

    /// Nanoseconds from the game's launch to the reading `now`.
    pub fn elapsed_at(&self, now: u128) -> (r: u128)
        ensures
            r == since(now, self.game_start),
    {
        now.saturating_sub(self.game_start)
    }

    /// Nanoseconds since the game was launched, at a fresh clock reading.
    pub fn elapsed(&self) -> (r: u128)
        ensures
            exists|now: u128| now <= DURATION_MAX_NANOS && r == since(now, self.game_start),
    {
        let now = self.now();
        self.elapsed_at(now)
    }

    /// Whether a heartbeat is due `since_last` nanoseconds after the last
    /// one: exactly when a whole interval has passed.
    pub fn heartbeat_due(&self, since_last: u128) -> (r: bool)
        ensures
            r == (since_last >= self.heartbeat_interval),
    {
        since_last >= self.heartbeat_interval
    }

    /// Whether a memory check is due `since_last` nanoseconds after the last
    /// one: exactly when a whole interval has passed.
    pub fn memory_check_due(&self, since_last: u128) -> (r: bool)
        ensures
            r == (since_last >= self.memory_interval),
    {
        since_last >= self.memory_interval
    }

    /// Whether a heartbeat is due at the reading `now`.
    pub fn should_heartbeat_at(&self, now: u128) -> (r: bool)
        ensures
            r == (since(now, self.last_heartbeat) >= self.heartbeat_interval),
    {
        self.heartbeat_due(now.saturating_sub(self.last_heartbeat))
    }

    /// Whether a memory check is due at the reading `now`.
    pub fn should_check_memory_at(&self, now: u128) -> (r: bool)
        ensures
            r == (since(now, self.last_memory_check) >= self.memory_interval),
    {
        self.memory_check_due(now.saturating_sub(self.last_memory_check))
    }

    /// Reads the clock and decides whether a heartbeat is due at that
    /// reading; returns the decision and the reading it was taken at.
    pub fn heartbeat_check(&self) -> (r: (bool, u128))
        ensures
            r.1 <= DURATION_MAX_NANOS,
            r.0 == (since(r.1, self.last_heartbeat) >= self.heartbeat_interval),
    {
        let now = self.now();
        (self.should_heartbeat_at(now), now)
    }

    /// Reads the clock and decides whether a memory check is due at that
    /// reading; returns the decision and the reading it was taken at.
    pub fn memory_check(&self) -> (r: (bool, u128))
        ensures
            r.1 <= DURATION_MAX_NANOS,
            r.0 == (since(r.1, self.last_memory_check) >= self.memory_interval),
    {
        let now = self.now();
        (self.should_check_memory_at(now), now)
    }

    /// Whether a heartbeat is due at a fresh clock reading: the decision of
    /// `heartbeat_check`.
    pub fn should_heartbeat(&self) -> (r: bool)
        ensures
            exists|now: u128|
                now <= DURATION_MAX_NANOS && r == (since(now, self.last_heartbeat)
                    >= self.heartbeat_interval),
    {
        let (due, _) = self.heartbeat_check();
        due
    }

    /// Whether a memory check is due at a fresh clock reading: the decision
    /// of `memory_check`.
    pub fn should_check_memory(&self) -> (r: bool)
        ensures
            exists|now: u128|
                now <= DURATION_MAX_NANOS && r == (since(now, self.last_memory_check)
                    >= self.memory_interval),
    {
        let (due, _) = self.memory_check();
        due
    }

    /// Starts a new heartbeat period at the reading `now`: the per-heartbeat
    /// totals go back to zero.
    pub fn reset_heartbeat_at(&mut self, now: u128)
        ensures
            *final(self) == (DiagnosticsState {
                tick_time: 0,
                render_time: 0,
                executor_time: 0,
                render_count: 0,
                last_heartbeat: now,
                ..*old(self)
            }),
    {
        self.tick_time = 0;
        self.render_time = 0;
        self.executor_time = 0;
        self.render_count = 0;
        self.last_heartbeat = now;
    }

    /// Starts a new heartbeat period at a fresh clock reading, which becomes
    /// the time of the last heartbeat.
    pub fn reset_heartbeat(&mut self)
        ensures
            final(self).last_heartbeat <= DURATION_MAX_NANOS,
            *final(self) == (DiagnosticsState {
                tick_time: 0,
                render_time: 0,
                executor_time: 0,
                render_count: 0,
                last_heartbeat: final(self).last_heartbeat,
                ..*old(self)
            }),
    {
        let now = self.now();
        self.reset_heartbeat_at(now);
    }

    /// Restarts the memory check interval at the reading `now`.
    pub fn reset_memory_check_at(&mut self, now: u128)
        ensures
            *final(self) == (DiagnosticsState { last_memory_check: now, ..*old(self) }),
    {
        self.last_memory_check = now;
    }

    /// Restarts the memory check interval at a fresh clock reading.
    pub fn reset_memory_check(&mut self)
        ensures
            final(self).last_memory_check <= DURATION_MAX_NANOS,
            *final(self) == (DiagnosticsState {
                last_memory_check: final(self).last_memory_check,
                ..*old(self)
            }),
    {
        let now = self.now();
        self.reset_memory_check_at(now);
    }

    /// Marks a tick as started at the reading `now`.
    pub fn begin_tick_at(&mut self, now: u128)
        ensures
            *final(self) == (DiagnosticsState {
                tick_in_progress: true,
                tick_start: Some(now),
                ..*old(self)
            }),
    {
        self.tick_in_progress = true;
        self.tick_start = Some(now);
    }

    /// Marks a tick as started at a fresh clock reading.
    pub fn begin_tick(&mut self)
        ensures
            final(self).tick_start matches Some(t) && t <= DURATION_MAX_NANOS,
            *final(self) == (DiagnosticsState {
                tick_in_progress: true,
                tick_start: final(self).tick_start,
                ..*old(self)
            }),
    {
        let now = self.now();
        self.begin_tick_at(now);
    }

    /// Marks the tick as finished at the reading `now`; when one was
    /// started, records the time from its start to `now` and adds it to the
    /// heartbeat's total (which stops growing at the largest `u128`).
    pub fn end_tick_at(&mut self, now: u128)
        ensures
            *final(self) == tick_ended(*old(self), now),
    {
        if let Some(start) = self.tick_start {
            let e = now.saturating_sub(start);
            self.last_tick_time = e;
            self.tick_time = self.tick_time.saturating_add(e);
            self.tick_start = None;
        }
        self.tick_in_progress = false;
    }

    /// Marks the tick as finished at a fresh clock reading, recording how
    /// long it took when one was started.
    pub fn end_tick(&mut self)
        ensures
            exists|now: u128|
                now <= DURATION_MAX_NANOS && *final(self) == #[trigger] tick_ended(*old(self), now),
    {
        let now = self.now();
        self.end_tick_at(now);
    }

    /// Marks a render as started at the reading `now`.
    pub fn begin_render_at(&mut self, now: u128)
        ensures
            *final(self) == (DiagnosticsState {
                render_in_progress: true,
                render_start: Some(now),
                ..*old(self)
            }),
    {
        self.render_in_progress = true;
        self.render_start = Some(now);
    }

    /// Marks a render as started at a fresh clock reading.
    pub fn begin_render(&mut self)
        ensures
            final(self).render_start matches Some(t) && t <= DURATION_MAX_NANOS,
            *final(self) == (DiagnosticsState {
                render_in_progress: true,
                render_start: final(self).render_start,
                ..*old(self)
            }),
    {
        let now = self.now();
        self.begin_render_at(now);
    }

    /// Marks the render as finished at the reading `now` and counts it; when
    /// one was started, records the time from its start to `now` and adds it
    /// to the heartbeat's total.
    pub fn end_render_at(&mut self, now: u128)
        requires
            old(self).render_count < u64::MAX,
        ensures
            *final(self) == render_ended(*old(self), now),
    {
        if let Some(start) = self.render_start {
            let e = now.saturating_sub(start);
            self.last_render_time = e;
            self.render_time = self.render_time.saturating_add(e);
            self.render_start = None;
        }
        self.render_in_progress = false;
        self.render_count = self.render_count + 1;
    }

    /// Marks the render as finished at a fresh clock reading and counts it.
    pub fn end_render(&mut self)
        requires
            old(self).render_count < u64::MAX,
        ensures
            exists|now: u128|
                now <= DURATION_MAX_NANOS && *final(self) == #[trigger] render_ended(*old(self), now),
    {
        let now = self.now();
        self.end_render_at(now);
    }

    /// Records the time step, in microseconds, handed to the player.
    pub fn record_dt(&mut self, dt_micros: u128)
        requires
            dt_micros * 1000 <= u128::MAX,
        ensures
            *final(self) == (DiagnosticsState { last_dt: (dt_micros * 1000) as u128, ..*old(self) }),
    {
        self.last_dt = dt_micros * 1000;
    }

    /// Records one run of the pending tasks, which took `nanos`.
    pub fn record_executor(&mut self, nanos: u128)
        ensures
            *final(self) == (DiagnosticsState {
                executor_time: old(self).executor_time.saturating_add(nanos),
                ..*old(self)
            }),
    {
        self.executor_time = self.executor_time.saturating_add(nanos);
    }

    /// Records one tick of the player, which took `nanos`: one more frame.
    pub fn record_tick(&mut self, nanos: u128)
        requires
            old(self).frame_count < u64::MAX,
        ensures
            *final(self) == (DiagnosticsState {
                last_tick_time: nanos,
                tick_time: old(self).tick_time.saturating_add(nanos),
                frame_count: (old(self).frame_count + 1) as u64,
                ..*old(self)
            }),
    {
        self.last_tick_time = nanos;
        self.tick_time = self.tick_time.saturating_add(nanos);
        self.frame_count = self.frame_count + 1;
    }

    /// Records one render, which took `nanos`.
    pub fn record_render(&mut self, nanos: u128)
        requires
            old(self).render_count < u64::MAX,
        ensures
            *final(self) == (DiagnosticsState {
                last_render_time: nanos,
                render_time: old(self).render_time.saturating_add(nanos),
                render_count: (old(self).render_count + 1) as u64,
                ..*old(self)
            }),
    {
        self.last_render_time = nanos;
        self.render_time = self.render_time.saturating_add(nanos);
        self.render_count = self.render_count + 1;
    }
}

/// A heartbeat is due exactly once a whole interval has passed since the
/// last one: not before, and from then on at every later reading.
pub proof fn lemma_heartbeat_timing(s: DiagnosticsState, t1: u128, t2: u128)
    requires
        s.last_heartbeat <= t1 <= t2,
    ensures
        (since(t1, s.last_heartbeat) >= s.heartbeat_interval) == (t1 - s.last_heartbeat
            >= s.heartbeat_interval),
        since(t1, s.last_heartbeat) >= s.heartbeat_interval ==> since(t2, s.last_heartbeat)
            >= s.heartbeat_interval,
        (since(t1, s.last_memory_check) >= s.memory_interval && s.last_memory_check <= t1)
            ==> since(t2, s.last_memory_check) >= s.memory_interval,
{
}

/// A tick or render longer than this, 100 ms, is logged as slow.
pub const SLOW_FRAME_NANOS: u128 = 100_000_000;

/// Whether a tick or render that took `nanos` is slow enough to log.
pub fn is_slow(nanos: u128) -> (r: bool)
    ensures
        r == (nanos > SLOW_FRAME_NANOS),
{
    nanos > SLOW_FRAME_NANOS
}

/// Whether the player is ticked after `dt_micros` microseconds: only when
/// some time has passed.
pub fn tick_due(dt_micros: u128) -> (r: bool)
    ensures
        r == (dt_micros > 0),
{
    dt_micros > 0
}

/// How long a game may take to preload before it is started anyway: 30 s.
pub const PRELOAD_TIMEOUT_NANOS: u128 = 30 * NANOS_PER_SEC;

/// What the preload loop does after one round.
#[derive(Clone, Copy, Debug, PartialEq, Eq, Structural)]
pub enum PreloadStep {
    /// The movie is not loaded yet and there is time left: preload more.
    Continue,
    /// The movie is loaded: start it.
    Finished,
    /// The time ran out before the movie was loaded: start it anyway.
    TimedOut,
}

/// The preload loop's decision after a round that left the movie loaded
/// (`done`) or not, `elapsed` nanoseconds after preloading began.
pub fn preload_step(done: bool, elapsed: u128) -> (r: PreloadStep)
    ensures
        r == (if done {
            PreloadStep::Finished
        } else if elapsed >= PRELOAD_TIMEOUT_NANOS {
            PreloadStep::TimedOut
        } else {
            PreloadStep::Continue
        }),
{
    if done {
        PreloadStep::Finished
    } else if elapsed >= PRELOAD_TIMEOUT_NANOS {
        PreloadStep::TimedOut
    } else {
        PreloadStep::Continue
    }
}

/// Free memory (kernel, user, CDRAM, physically contiguous), in bytes.
/// Only the PS Vita can tell; elsewhere there is none to report.
pub fn get_vita_memory() -> (r: Option<(usize, usize, usize, usize)>)
    ensures
        r is None,
{
    None
}

/// `n / d` rounded to the nearest integer, a tie going to the even one.
pub open spec fn round_half_even(n: nat, d: nat) -> nat
    recommends
        d > 0,
{
    let q = n / d;
    let r = n % d;
    if 2 * r > d || (2 * r == d && q % 2 == 1) {
        q + 1
    } else {
        q
    }
}

/// The spacing of `f64` values around `b`, for `b` below 2^64.
pub open spec fn f64_spacing(b: nat) -> nat {
    if b < 0x20_0000_0000_0000 {
        1
    } else if b < 0x40_0000_0000_0000 {
        2
    } else if b < 0x80_0000_0000_0000 {
        4
    } else if b < 0x100_0000_0000_0000 {
        8
    } else if b < 0x200_0000_0000_0000 {
        16
    } else if b < 0x400_0000_0000_0000 {
        32
    } else if b < 0x800_0000_0000_0000 {
        64
    } else if b < 0x1000_0000_0000_0000 {
        128
    } else if b < 0x2000_0000_0000_0000 {
        256
    } else if b < 0x4000_0000_0000_0000 {
        512
    } else if b < 0x8000_0000_0000_0000 {
        1024
    } else {
        2048
    }
}

/// The `f64` nearest to the integer `b` (below 2^64), ties to even, as an integer.
pub open spec fn to_f64(b: nat) -> nat {
    round_half_even(b, f64_spacing(b)) * f64_spacing(b)
}

/// A count of tenths written with one decimal, as `{:.1}` writes it.
pub open spec fn tenths_text(t: nat) -> Seq<char> {
    decimal(t / 10) + seq!['.', digit_char(t % 10)]
}

/// How `format_bytes` writes `bytes`.
pub open spec fn format_bytes_spec(bytes: nat) -> Seq<char> {
    if bytes >= 1024 * 1024 {
        tenths_text(round_half_even(to_f64(bytes) * 10, 1024 * 1024)) + " MB"@
    } else if bytes >= 1024 {
        tenths_text(round_half_even(bytes * 10, 1024)) + " KB"@
    } else {
        decimal(bytes) + " B"@
    }
}

fn round_half_even_u128(n: u128, d: u128) -> (r: u128)
    requires
        d > 0,
        n / d < u128::MAX,
    ensures
        r == round_half_even(n as nat, d as nat),
        r <= n / d + 1,
{
    let q = n / d;
    let rem = n % d;
    assert(rem < d);
    if rem > d - rem || (rem == d - rem && q % 2 == 1) {
        q + 1
    } else {
        q
    }
}

fn f64_spacing_u128(b: u128) -> (r: u128)
    ensures
        r == f64_spacing(b as nat),
        1 <= r <= 2048,
{
    if b < 0x20_0000_0000_0000 {
        1
    } else if b < 0x40_0000_0000_0000 {
        2
    } else if b < 0x80_0000_0000_0000 {
        4
    } else if b < 0x100_0000_0000_0000 {
        8
    } else if b < 0x200_0000_0000_0000 {
        16
    } else if b < 0x400_0000_0000_0000 {
        32
    } else if b < 0x800_0000_0000_0000 {
        64
    } else if b < 0x1000_0000_0000_0000 {
        128
    } else if b < 0x2000_0000_0000_0000 {
        256
    } else if b < 0x4000_0000_0000_0000 {
        512
    } else if b < 0x8000_0000_0000_0000 {
        1024
    } else {
        2048
    }
}

fn push_tenths(out: &mut String, t: u128)
    requires
        t / 10 <= u64::MAX,
    ensures
        final(out)@ == old(out)@ + tenths_text(t as nat),
{
    let whole = (t / 10) as u64;
    push_decimal(out, whole);
    out.append(".");
    push_decimal(out, (t % 10) as u64);
    proof {
        reveal_strlit(".");
        assert(decimal((t % 10) as nat) == seq![digit_char((t % 10) as nat)]);
        assert(final(out)@ =~= old(out)@ + tenths_text(t as nat));
    }
}

/// A byte count as people read it: bytes below a KiB, KiB below a MiB, MiB
/// above, the last two with one decimal rounded as an `f64` prints.
pub fn format_bytes(bytes: usize) -> (r: String)
    ensures
        r@ == format_bytes_spec(bytes as nat),
{
    let mut s = String::new();
    if bytes >= 1024 * 1024 {
        let b = bytes as u128;
        let unit = f64_spacing_u128(b);
        let q = round_half_even_u128(b, unit);
        assert(q <= b / unit + 1);
        assert(b / unit <= b) by (nonlinear_arith)
            requires
                unit >= 1,
        ;
        assert(q * unit <= b + unit) by (nonlinear_arith)
            requires
                q <= b / unit + 1,
                unit >= 1,
        ;
        let f = q * unit;
        let t = round_half_even_u128(f * 10, 1024 * 1024);
        assert(t / 10 <= u64::MAX) by (nonlinear_arith)
            requires
                t <= (f * 10) as int / 1048576 + 1,
                f <= b + 2048,
                b <= u64::MAX,
        ;
        push_tenths(&mut s, t);
        s.append(" MB");
    } else if bytes >= 1024 {
        let t = round_half_even_u128(bytes as u128 * 10, 1024);
        assert(t / 10 <= u64::MAX) by (nonlinear_arith)
            requires
                t <= (bytes * 10) as int / 1024 + 1,
                bytes < 1024 * 1024,
        ;
        push_tenths(&mut s, t);
        s.append(" KB");
    } else {
        push_decimal(&mut s, bytes as u64);
        s.append(" B");
    }
    proof {
        assert(s@ =~= format_bytes_spec(bytes as nat));
    }
    s
}

/// The line a memory snapshot labelled `label` logs for the free memory `mem`
/// (kernel, user, CDRAM, physically contiguous).
pub open spec fn memory_line_spec(label: Seq<char>, mem: (usize, usize, usize, usize)) -> Seq<
    char,
> {
    "[MEMORY @ "@ + label + "] user="@ + format_bytes_spec(mem.1 as nat) + " kernel="@
        + format_bytes_spec(mem.0 as nat) + " cdram="@ + format_bytes_spec(mem.2 as nat)
        + " phycont="@ + format_bytes_spec(mem.3 as nat)
}

/// The line a memory snapshot labelled `label` logs for the free memory `mem`.
pub fn memory_snapshot_line(label: &str, mem: (usize, usize, usize, usize)) -> (r: String)
    ensures
        r@ == memory_line_spec(label@, mem),
{
    let mut s = String::from_str("[MEMORY @ ");
    s.append(label);
    s.append("] user=");
    s.append(format_bytes(mem.1).as_str());
    s.append(" kernel=");
    s.append(format_bytes(mem.0).as_str());
    s.append(" cdram=");
    s.append(format_bytes(mem.2).as_str());
    s.append(" phycont=");
    s.append(format_bytes(mem.3).as_str());
    s
}

/// The line a memory snapshot labelled `label` logs, when free memory can be
/// read (never, off the PS Vita).
pub fn log_memory_snapshot(label: &str) -> (r: Option<String>)
    ensures
        r is None,
{
    match get_vita_memory() {
        Some(mem) => Some(memory_snapshot_line(label, mem)),
        None => None,
    }
}

/// OpenGL error codes.
pub const GL_NO_ERROR: u32 = 0;

pub const GL_INVALID_ENUM: u32 = 0x0500;

pub const GL_INVALID_VALUE: u32 = 0x0501;

pub const GL_INVALID_OPERATION: u32 = 0x0502;

pub const GL_OUT_OF_MEMORY: u32 = 0x0505;

pub const GL_INVALID_FRAMEBUFFER_OPERATION: u32 = 0x0506;

/// The name an OpenGL error code is logged under.
pub open spec fn gl_error_name_spec(err: u32) -> Seq<char> {
    if err == GL_INVALID_ENUM {
        "INVALID_ENUM"@
    } else if err == GL_INVALID_VALUE {
        "INVALID_VALUE"@
    } else if err == GL_INVALID_OPERATION {
        "INVALID_OPERATION"@
    } else if err == GL_OUT_OF_MEMORY {
        "OUT_OF_MEMORY"@
    } else if err == GL_INVALID_FRAMEBUFFER_OPERATION {
        "INVALID_FRAMEBUFFER_OPERATION"@
    } else {
        "UNKNOWN"@
    }
}

/// The name an OpenGL error code is logged under.
pub fn gl_error_name(err: u32) -> (r: &'static str)
    ensures
        r@ == gl_error_name_spec(err),
{
    if err == GL_INVALID_ENUM {
        "INVALID_ENUM"
    } else if err == GL_INVALID_VALUE {
        "INVALID_VALUE"
    } else if err == GL_INVALID_OPERATION {
        "INVALID_OPERATION"
    } else if err == GL_OUT_OF_MEMORY {
        "OUT_OF_MEMORY"
    } else if err == GL_INVALID_FRAMEBUFFER_OPERATION {
        "INVALID_FRAMEBUFFER_OPERATION"
    } else {
        "UNKNOWN"
    }
}

} // verus!
