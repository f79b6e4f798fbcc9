//! Performance monitoring: per-frame timings and GPU buffer statistics, kept
//! over a rolling window of the most recent frames.
//!
//! Durations are held as whole nanoseconds (`u128`), the unit that
//! `std::time::Duration::as_nanos` reports. Timers hold clock readings: the
//! nanoseconds elapsed since the tracker was created.
use vstd::prelude::*;
use std::collections::VecDeque;
use std::time::Instant;

verus! {

/// Number of frames kept for the rolling averages.
pub const WINDOW_SIZE: usize = 60;

/// The longest duration that `std::time::Duration` can hold, in nanoseconds
/// (`u64::MAX` seconds plus 999 999 999 nanoseconds).
pub const MAX_DURATION_NANOS: u128 = 18446744073709551615999999999u128;

#[verifier::external_type_specification]
#[verifier::external_body]
pub struct ExInstant(Instant);

/// Reads the monotonic clock with `std::time::Instant::now`.
/// Nothing is claimed of the instant returned: it depends on the time of the call.
#[verifier::external_body]
fn instant_now() -> (now: Instant) {
    Instant::now()
}

/// A clock reading: the time elapsed since `start`, as measured by
/// `std::time::Instant::elapsed`, converted to whole nanoseconds with
/// `Duration::as_nanos`. The value depends on the clock; the only claim is
/// that it lies within the range of a `Duration`.
#[verifier::external_body]
fn nanos_since(start: &Instant) -> (nanos: u128)
    ensures
        nanos <= MAX_DURATION_NANOS,
{
    start.elapsed().as_nanos()
}

/// Performance metrics of a single frame.
#[derive(Debug, Clone, Copy, PartialEq, Eq, Structural)]
pub struct FrameMetrics {
    /// Wall time of the whole frame, in nanoseconds
    pub total_nanos: u128,
    /// Time spent in physics, in nanoseconds
    pub physics_nanos: u128,
    /// Time spent in ECS queries, in nanoseconds
    pub query_nanos: u128,
    /// Time spent rendering, in nanoseconds
    pub render_nanos: u128,
    /// Number of GPU buffers allocated during the frame
    pub buffer_allocs: u32,
    /// Bytes uploaded to the GPU during the frame
    pub bytes_uploaded: u64,
}

/// One of the quantities recorded per frame.
#[derive(Debug, Clone, Copy, PartialEq, Eq, Structural)]
pub enum Metric {
    TotalTime,
    PhysicsTime,
    QueryTime,
    RenderTime,
    BufferAllocs,
    BytesUploaded,
}

impl FrameMetrics {
    /// The metrics of a frame in which nothing has been recorded yet.
    pub open spec fn zero() -> FrameMetrics {
        FrameMetrics {
            total_nanos: 0,
            physics_nanos: 0,
            query_nanos: 0,
            render_nanos: 0,
            buffer_allocs: 0,
            bytes_uploaded: 0,
        }
    }

    /// The value of one metric of this frame.
    pub open spec fn metric(self, k: Metric) -> int {
        match k {
            Metric::TotalTime => self.total_nanos as int,
            Metric::PhysicsTime => self.physics_nanos as int,
            Metric::QueryTime => self.query_nanos as int,
            Metric::RenderTime => self.render_nanos as int,
            Metric::BufferAllocs => self.buffer_allocs as int,
            Metric::BytesUploaded => self.bytes_uploaded as int,
        }
    }

    /// Every duration of the frame is one that a `Duration` can hold.
    pub open spec fn in_range(self) -> bool {
        &&& self.total_nanos <= MAX_DURATION_NANOS
        &&& self.physics_nanos <= MAX_DURATION_NANOS
        &&& self.query_nanos <= MAX_DURATION_NANOS
        &&& self.render_nanos <= MAX_DURATION_NANOS
    }

    /// The value of one metric of this frame.
    pub fn value_of(&self, k: Metric) -> (v: u128)
        ensures
            v == self.metric(k),
    {
        match k {
            Metric::TotalTime => self.total_nanos,
            Metric::PhysicsTime => self.physics_nanos,
            Metric::QueryTime => self.query_nanos,
            Metric::RenderTime => self.render_nanos,
            Metric::BufferAllocs => self.buffer_allocs as u128,
            Metric::BytesUploaded => self.bytes_uploaded as u128,
        }
    }
}

impl Default for FrameMetrics {
    fn default() -> (m: FrameMetrics)
        ensures
            m == FrameMetrics::zero(),
    {
        FrameMetrics {
            total_nanos: 0,
            physics_nanos: 0,
            query_nanos: 0,
            render_nanos: 0,
            buffer_allocs: 0,
            bytes_uploaded: 0,
        }
    }
}

/// Sum of one metric over a sequence of frames.
pub open spec fn sum_by(s: Seq<FrameMetrics>, k: Metric) -> int
    decreases s.len(),
{
    if s.len() == 0 {
        0
    } else {
        sum_by(s.drop_last(), k) + s.last().metric(k)
    }
}

/// Average of one metric over a sequence of frames, rounded down; 0 for no frames.
pub open spec fn average_by(s: Seq<FrameMetrics>, k: Metric) -> int {
    if s.len() == 0 {
        0
    } else {
        sum_by(s, k) / (s.len() as int)
    }
}

/// Smallest value of one metric over a non-empty sequence of frames.
pub open spec fn min_by(s: Seq<FrameMetrics>, k: Metric) -> int
    decreases s.len(),
{
    if s.len() <= 1 {
        s[0].metric(k)
    } else {
        let m = min_by(s.drop_last(), k);
        if s.last().metric(k) < m {
            s.last().metric(k)
        } else {
            m
        }
    }
}

/// Largest value of one metric over a non-empty sequence of frames.
pub open spec fn max_by(s: Seq<FrameMetrics>, k: Metric) -> int
    decreases s.len(),
{
    if s.len() <= 1 {
        s[0].metric(k)
    } else {
        let m = max_by(s.drop_last(), k);
        if s.last().metric(k) > m {
            s.last().metric(k)
        } else {
            m
        }
    }
}

/// The history after a finished frame: the frame is appended, and the oldest
/// frame is dropped when the history would exceed the window.
pub open spec fn window_push(s: Seq<FrameMetrics>, f: FrameMetrics) -> Seq<FrameMetrics> {
    let p = s.push(f);
    if p.len() > WINDOW_SIZE {
        p.drop_first()
    } else {
        p
    }
}

/// Extending a prefix by one frame adds that frame's value to the sum.
proof fn lemma_sum_take_step(s: Seq<FrameMetrics>, i: int, k: Metric)
    requires
        0 <= i < s.len(),
    ensures
        sum_by(s.take(i + 1), k) == sum_by(s.take(i), k) + s[i].metric(k),
{
    assert(s.take(i + 1).drop_last() =~= s.take(i));
}

/// Extending a non-empty prefix by one frame takes the smaller / larger value.
proof fn lemma_min_max_take_step(s: Seq<FrameMetrics>, i: int, k: Metric)
    requires
        1 <= i < s.len(),
    ensures
        min_by(s.take(i + 1), k) == (if s[i].metric(k) < min_by(s.take(i), k) {
            s[i].metric(k)
        } else {
            min_by(s.take(i), k)
        }),
        max_by(s.take(i + 1), k) == (if s[i].metric(k) > max_by(s.take(i), k) {
            s[i].metric(k)
        } else {
            max_by(s.take(i), k)
        }),
{
    assert(s.take(i + 1).drop_last() =~= s.take(i));
}

/// Every frame's value lies between the smallest and the largest value.
pub proof fn lemma_min_max_bound(s: Seq<FrameMetrics>, k: Metric)
    requires
        s.len() > 0,
    ensures
        forall|i: int|
            0 <= i < s.len() ==> min_by(s, k) <= #[trigger] s[i].metric(k) <= max_by(s, k),
    decreases s.len(),
{
    if s.len() > 1 {
        lemma_min_max_bound(s.drop_last(), k);
        assert forall|i: int| 0 <= i < s.len() implies min_by(s, k) <= #[trigger] s[i].metric(
            k,
        ) <= max_by(s, k) by {
            if i < s.len() - 1 {
                assert(s[i] == s.drop_last()[i]);
            }
        }
    }
}

/// Bounds on every frame's value bound the sum.
proof fn lemma_sum_bounds(s: Seq<FrameMetrics>, k: Metric, lo: int, hi: int)
    requires
        forall|i: int| 0 <= i < s.len() ==> lo <= #[trigger] s[i].metric(k) <= hi,
    ensures
        s.len() * lo <= sum_by(s, k) <= s.len() * hi,
    decreases s.len(),
{
    if s.len() > 0 {
        let t = s.drop_last();
        assert forall|i: int| 0 <= i < t.len() implies lo <= #[trigger] t[i].metric(k) <= hi by {
            assert(t[i] == s[i]);
        }
        lemma_sum_bounds(t, k, lo, hi);
        assert(s.last() == s[s.len() - 1]);
        assert(s.len() * lo == t.len() * lo + lo) by (nonlinear_arith)
            requires
                s.len() == t.len() + 1,
        ;
        assert(s.len() * hi == t.len() * hi + hi) by (nonlinear_arith)
            requires
                s.len() == t.len() + 1,
        ;
    }
}

/// A quotient by `n` of a value between `n * lo` and `n * hi` lies between `lo` and `hi`.
proof fn lemma_div_between(total: int, n: int, lo: int, hi: int)
    requires
        n > 0,
        n * lo <= total <= n * hi,
    ensures
        lo <= total / n <= hi,
{
    assert(lo <= total / n) by (nonlinear_arith)
        requires
            n > 0,
            n * lo <= total,
    ;
    assert(total / n <= hi) by (nonlinear_arith)
        requires
            n > 0,
            total <= n * hi,
    ;
}

/// The rolling average of a metric never leaves the range between the
/// smallest and the largest value in the window.
pub proof fn lemma_average_between_min_max(s: Seq<FrameMetrics>, k: Metric)
    requires
        s.len() > 0,
    ensures
        min_by(s, k) <= average_by(s, k) <= max_by(s, k),
{
    lemma_min_max_bound(s, k);
    lemma_sum_bounds(s, k, min_by(s, k), max_by(s, k));
    lemma_div_between(sum_by(s, k), s.len() as int, min_by(s, k), max_by(s, k));
}

/// When every frame in the window has the same value of a metric, its
/// average, minimum and maximum are that value.
pub proof fn lemma_identical_frames(s: Seq<FrameMetrics>, k: Metric, c: int)
    requires
        s.len() > 0,
        forall|i: int| 0 <= i < s.len() ==> #[trigger] s[i].metric(k) == c,
    ensures
        average_by(s, k) == c,
        min_by(s, k) == c,
        max_by(s, k) == c,
        sum_by(s, k) == s.len() * c,
{
    lemma_sum_bounds(s, k, c, c);
    lemma_div_between(sum_by(s, k), s.len() as int, c, c);
    lemma_min_max_bound(s, k);
    lemma_min_max_is_attained(s, k);
}

/// The smallest and the largest value are values of some frame.
pub proof fn lemma_min_max_is_attained(s: Seq<FrameMetrics>, k: Metric)
    requires
        s.len() > 0,
    ensures
        exists|i: int| 0 <= i < s.len() && #[trigger] s[i].metric(k) == min_by(s, k),
        exists|i: int| 0 <= i < s.len() && #[trigger] s[i].metric(k) == max_by(s, k),
    decreases s.len(),
{
    if s.len() == 1 {
        assert(s[0].metric(k) == min_by(s, k));
        assert(s[0].metric(k) == max_by(s, k));
    } else {
        let t = s.drop_last();
        lemma_min_max_is_attained(t, k);
        let a = choose|i: int| 0 <= i < t.len() && #[trigger] t[i].metric(k) == min_by(t, k);
        let b = choose|i: int| 0 <= i < t.len() && #[trigger] t[i].metric(k) == max_by(t, k);
        assert(s[a] == t[a]);
        assert(s[b] == t[b]);
        assert(s[s.len() - 1] == s.last());
        if s.last().metric(k) < min_by(t, k) {
            assert(s[s.len() - 1].metric(k) == min_by(s, k));
        } else {
            assert(s[a].metric(k) == min_by(s, k));
        }
        if s.last().metric(k) > max_by(t, k) {
            assert(s[s.len() - 1].metric(k) == max_by(s, k));
        } else {
            assert(s[b].metric(k) == max_by(s, k));
        }
    }
}

/// The history never holds more than `WINDOW_SIZE` frames; a finished frame is
/// always its newest entry, and it holds the most recent frames in order.
pub proof fn lemma_window_push(s: Seq<FrameMetrics>, f: FrameMetrics)
    requires
        s.len() <= WINDOW_SIZE,
    ensures
        window_push(s, f).len() == (if s.len() < WINDOW_SIZE {
            s.len() + 1int
        } else {
            WINDOW_SIZE as int
        }),
        window_push(s, f).last() == f,
        window_push(s, f) == s.push(f).subrange(
            s.len() + 1int - window_push(s, f).len(),
            s.len() + 1int,
        ),
{
    let p = s.push(f);
    if p.len() > WINDOW_SIZE {
        assert(p.drop_first() =~= p.subrange(1, p.len() as int));
    } else {
        assert(p =~= p.subrange(0, p.len() as int));
    }
}

/// The time between two clock readings; zero when the later reading is
/// not the larger one (the clock never runs backwards, so this only guards).
pub open spec fn elapsed_between(start: u128, now: u128) -> u128 {
    if now >= start {
        (now - start) as u128
    } else {
        0
    }
}

/// The time between two clock readings, as `elapsed_between` says.
fn time_between(start: u128, now: u128) -> (d: u128)
    ensures
        d == elapsed_between(start, now),
{
    if now >= start {
        now - start
    } else {
        0
    }
}

/// The abstract state of a [`PerfTracker`].
#[verifier::ext_equal]
pub struct PerfState {
    /// Finished frames, oldest first
    pub frames: Seq<FrameMetrics>,
    /// The frame being recorded
    pub current: FrameMetrics,
    /// The instant the tracker was created; clock readings count from it
    pub origin: Instant,
    /// The reading at which the running frame timer started, if one runs
    pub frame_start: Option<u128>,
    /// The reading at which the running subsystem timer started, if one runs
    pub subsystem_start: Option<u128>,
    /// The latest clock reading taken, in nanoseconds since `origin`
    pub last_reading: u128,
    /// Triangle count reported by the renderer
    pub triangle_count: u32,
    /// Buffer allocations since creation
    pub total_allocations: u64,
    /// Bytes uploaded since creation
    pub total_bytes_uploaded: u64,
    /// Buffer frees since creation
    pub total_frees: u64,
    /// Bytes freed since creation
    pub total_bytes_freed: u64,
    /// Bytes currently allocated (never below zero)
    pub current_memory_bytes: u64,
}

impl PerfState {
    /// The state's invariant.
    pub open spec fn wf(self) -> bool {
        &&& self.frames.len() <= WINDOW_SIZE
        &&& forall|i: int| 0 <= i < self.frames.len() ==> (#[trigger] self.frames[i]).in_range()
        &&& self.current.in_range()
        &&& self.last_reading <= MAX_DURATION_NANOS
        &&& (self.frame_start matches Some(r) ==> r <= MAX_DURATION_NANOS)
        &&& (self.subsystem_start matches Some(r) ==> r <= MAX_DURATION_NANOS)
        &&& self.current_memory_bytes <= self.total_bytes_uploaded
        &&& self.total_bytes_uploaded - self.total_bytes_freed <= self.current_memory_bytes
    }

    /// The state of a tracker freshly created at `origin`.
    pub open spec fn initial(origin: Instant) -> PerfState {
        PerfState {
            frames: Seq::empty(),
            current: FrameMetrics::zero(),
            origin,
            frame_start: None,
            subsystem_start: None,
            last_reading: 0,
            triangle_count: 0,
            total_allocations: 0,
            total_bytes_uploaded: 0,
            total_frees: 0,
            total_bytes_freed: 0,
            current_memory_bytes: 0,
        }
    }

    /// A new frame starts at clock reading `now`: the frame timer runs from
    /// it and the current metrics are cleared.
    pub open spec fn begin(self, now: u128) -> PerfState {
        PerfState {
            frame_start: Some(now),
            last_reading: now,
            current: FrameMetrics::zero(),
            ..self
        }
    }

    /// A subsystem timer starts at clock reading `now`.
    pub open spec fn start_subsystem(self, now: u128) -> PerfState {
        PerfState { subsystem_start: Some(now), last_reading: now, ..self }
    }

    /// A subsystem timer is read at `now` (when one runs): the time since it
    /// started goes into the given metric of the current frame, and the timer stops.
    pub open spec fn end_subsystem(self, k: Metric, now: u128) -> PerfState {
        match self.subsystem_start {
            Some(start) => PerfState {
                subsystem_start: None,
                last_reading: now,
                ..self.with_subsystem_time(k, Some(elapsed_between(start, now)))
            },
            None => self,
        }
    }

    /// A subsystem's elapsed time, when there is one, goes into the given metric
    /// of the current frame.
    pub open spec fn with_subsystem_time(self, k: Metric, elapsed: Option<u128>) -> PerfState {
        match elapsed {
            Some(n) => PerfState {
                current: match k {
                    Metric::PhysicsTime => FrameMetrics { physics_nanos: n, ..self.current },
                    Metric::QueryTime => FrameMetrics { query_nanos: n, ..self.current },
                    Metric::RenderTime => FrameMetrics { render_nanos: n, ..self.current },
                    _ => self.current,
                },
                ..self
            },
            None => self,
        }
    }

    /// A buffer of `bytes` bytes is allocated.
    pub open spec fn allocate(self, bytes: u64) -> PerfState {
        PerfState {
            current: FrameMetrics {
                buffer_allocs: (self.current.buffer_allocs + 1) as u32,
                bytes_uploaded: (self.current.bytes_uploaded + bytes) as u64,
                ..self.current
            },
            total_allocations: (self.total_allocations + 1) as u64,
            total_bytes_uploaded: (self.total_bytes_uploaded + bytes) as u64,
            current_memory_bytes: (self.current_memory_bytes + bytes) as u64,
            ..self
        }
    }

    /// An allocation can be recorded without overflowing a counter.
    pub open spec fn can_allocate(self, bytes: u64) -> bool {
        &&& self.current.buffer_allocs < u32::MAX
        &&& self.current.bytes_uploaded + bytes <= u64::MAX
        &&& self.total_allocations < u64::MAX
        &&& self.total_bytes_uploaded + bytes <= u64::MAX
    }

    /// A buffer of `bytes` bytes is freed; live memory saturates at zero.
    pub open spec fn free(self, bytes: u64) -> PerfState {
        PerfState {
            total_frees: (self.total_frees + 1) as u64,
            total_bytes_freed: (self.total_bytes_freed + bytes) as u64,
            current_memory_bytes: if self.current_memory_bytes >= bytes {
                (self.current_memory_bytes - bytes) as u64
            } else {
                0
            },
            ..self
        }
    }

    /// A free can be recorded without overflowing a counter.
    pub open spec fn can_free(self, bytes: u64) -> bool {
        &&& self.total_frees < u64::MAX
        &&& self.total_bytes_freed + bytes <= u64::MAX
    }

    /// The frame ends: the frame timer stops, the frame's total time is set
    /// when one was measured, and the frame joins the history.
    pub open spec fn finish(self, elapsed: Option<u128>) -> PerfState {
        let cur = match elapsed {
            Some(n) => FrameMetrics { total_nanos: n, ..self.current },
            None => self.current,
        };
        PerfState {
            current: cur,
            frames: window_push(self.frames, cur),
            frame_start: None,
            ..self
        }
    }

    /// The frame ends with the frame timer read at `now` (when one runs):
    /// the time since the frame started is the frame's total.
    pub open spec fn end(self, now: u128) -> PerfState {
        match self.frame_start {
            Some(start) => PerfState {
                last_reading: now,
                ..self.finish(Some(elapsed_between(start, now)))
            },
            None => self.finish(None),
        }
    }
}

/// Freeing a buffer right after allocating it restores live memory.
pub proof fn lemma_free_undoes_allocation(st: PerfState, bytes: u64)
    requires
        st.wf(),
        st.can_allocate(bytes),
    ensures
        st.allocate(bytes).free(bytes).current_memory_bytes == st.current_memory_bytes,
{
}

/// Live memory equals bytes uploaded minus bytes freed for as long as no free
/// exceeds the live memory: allocations, and frees of at most the live amount,
/// keep the equality. (A larger free saturates live memory at zero instead.)
pub proof fn lemma_live_memory_exact(st: PerfState, bytes: u64)
    requires
        st.wf(),
        st.current_memory_bytes == st.total_bytes_uploaded - st.total_bytes_freed,
    ensures
        st.can_allocate(bytes) ==> st.allocate(bytes).current_memory_bytes == st.allocate(
            bytes,
        ).total_bytes_uploaded - st.allocate(bytes).total_bytes_freed,
        st.can_free(bytes) && bytes <= st.current_memory_bytes ==> st.free(bytes).current_memory_bytes
            == st.free(bytes).total_bytes_uploaded - st.free(bytes).total_bytes_freed,
{
}

/// Starting and finishing a frame leaves the triangle count and the cumulative
/// totals as they were.
pub proof fn lemma_frame_keeps_totals(st: PerfState, now: u128, elapsed: Option<u128>)
    ensures
        ({
            let after = st.begin(now).finish(elapsed);
            &&& after.triangle_count == st.triangle_count
            &&& after.total_allocations == st.total_allocations
            &&& after.total_bytes_uploaded == st.total_bytes_uploaded
            &&& after.total_frees == st.total_frees
            &&& after.total_bytes_freed == st.total_bytes_freed
            &&& after.current_memory_bytes == st.current_memory_bytes
        }),
{
}

/// A frame's total is the time from the frame-start reading to the reading
/// taken when the frame ends (not the reading itself): the finished frame
/// carries it, joins the history as its newest entry, and the frame timer stops.
pub proof fn lemma_end_measures_from_frame_start(st: PerfState, now: u128)
    requires
        st.wf(),
        st.frame_start matches Some(start) && start <= now,
    ensures
        st.end(now).current.total_nanos == now - st.frame_start.unwrap(),
        st.end(now).frames.last().total_nanos == now - st.frame_start.unwrap(),
        st.end(now).frame_start is None,
        st.end(now).last_reading == now,
        st.end(now).current.physics_nanos == st.current.physics_nanos,
        st.end(now).current.query_nanos == st.current.query_nanos,
        st.end(now).current.render_nanos == st.current.render_nanos,
        st.end(now).current.buffer_allocs == st.current.buffer_allocs,
        st.end(now).current.bytes_uploaded == st.current.bytes_uploaded,
        st.end(now).subsystem_start == st.subsystem_start,
{
}

/// Recording a subsystem time writes that one time of the current frame and
/// nothing else: the other times, the buffer figures, the history and the
/// timers are as they were.
pub proof fn lemma_subsystem_time_sets_one_field(st: PerfState, n: u128)
    ensures
        ({
            let p = st.with_subsystem_time(Metric::PhysicsTime, Some(n));
            &&& p.current.physics_nanos == n
            &&& p.current.query_nanos == st.current.query_nanos
            &&& p.current.render_nanos == st.current.render_nanos
            &&& p.current.total_nanos == st.current.total_nanos
            &&& p.current.buffer_allocs == st.current.buffer_allocs
            &&& p.current.bytes_uploaded == st.current.bytes_uploaded
            &&& p.frames == st.frames
            &&& p.frame_start == st.frame_start
            &&& p.subsystem_start == st.subsystem_start
        }),
        ({
            let q = st.with_subsystem_time(Metric::QueryTime, Some(n));
            &&& q.current.query_nanos == n
            &&& q.current.physics_nanos == st.current.physics_nanos
            &&& q.current.render_nanos == st.current.render_nanos
            &&& q.current.total_nanos == st.current.total_nanos
            &&& q.current.buffer_allocs == st.current.buffer_allocs
            &&& q.current.bytes_uploaded == st.current.bytes_uploaded
            &&& q.frames == st.frames
            &&& q.frame_start == st.frame_start
            &&& q.subsystem_start == st.subsystem_start
        }),
        ({
            let r = st.with_subsystem_time(Metric::RenderTime, Some(n));
            &&& r.current.render_nanos == n
            &&& r.current.physics_nanos == st.current.physics_nanos
            &&& r.current.query_nanos == st.current.query_nanos
            &&& r.current.total_nanos == st.current.total_nanos
            &&& r.current.buffer_allocs == st.current.buffer_allocs
            &&& r.current.bytes_uploaded == st.current.bytes_uploaded
            &&& r.frames == st.frames
            &&& r.frame_start == st.frame_start
            &&& r.subsystem_start == st.subsystem_start
        }),
        st.with_subsystem_time(Metric::PhysicsTime, None) == st,
        st.with_subsystem_time(Metric::QueryTime, None) == st,
        st.with_subsystem_time(Metric::RenderTime, None) == st,
{
}

/// A subsystem mark measures from the subsystem-start reading: the recorded
/// time is the new reading minus the reading taken by `mark_start`, and the
/// subsystem timer stops; without a running subsystem timer nothing changes.
pub proof fn lemma_mark_measures_from_subsystem_start(st: PerfState, now: u128)
    ensures
        st.subsystem_start is Some && st.subsystem_start.unwrap() <= now ==> {
            &&& st.end_subsystem(Metric::PhysicsTime, now).current.physics_nanos == now - st.subsystem_start.unwrap()
            &&& st.end_subsystem(Metric::QueryTime, now).current.query_nanos == now - st.subsystem_start.unwrap()
            &&& st.end_subsystem(Metric::RenderTime, now).current.render_nanos == now - st.subsystem_start.unwrap()
            &&& st.end_subsystem(Metric::PhysicsTime, now).subsystem_start is None
            &&& st.end_subsystem(Metric::PhysicsTime, now).frame_start == st.frame_start
        },
        st.subsystem_start is None ==> st.end_subsystem(Metric::PhysicsTime, now) == st
            && st.end_subsystem(Metric::QueryTime, now) == st && st.end_subsystem(
            Metric::RenderTime,
            now,
        ) == st,
{
}

/// Every recorded allocation adds exactly one buffer and its bytes, to the
/// current frame, to the cumulative totals and to live memory; frees and
/// freed bytes, the history and the timers are untouched.
pub proof fn lemma_allocation_counts_once(st: PerfState, bytes: u64)
    requires
        st.wf(),
        st.can_allocate(bytes),
    ensures
        st.allocate(bytes).total_allocations == st.total_allocations + 1,
        st.allocate(bytes).total_bytes_uploaded == st.total_bytes_uploaded + bytes,
        st.allocate(bytes).current.buffer_allocs == st.current.buffer_allocs + 1,
        st.allocate(bytes).current.bytes_uploaded == st.current.bytes_uploaded + bytes,
        st.allocate(bytes).current_memory_bytes == st.current_memory_bytes + bytes,
        st.allocate(bytes).total_frees == st.total_frees,
        st.allocate(bytes).total_bytes_freed == st.total_bytes_freed,
        st.allocate(bytes).frames == st.frames,
        st.allocate(bytes).frame_start == st.frame_start,
        st.allocate(bytes).subsystem_start == st.subsystem_start,
        st.allocate(bytes).allocate(bytes).total_allocations == st.total_allocations + 2
            || !st.allocate(bytes).can_allocate(bytes),
{
}

/// Tracks performance over time with rolling averages.
pub struct PerfTracker {
    frames: VecDeque<FrameMetrics>,
    current: FrameMetrics,
    origin: Instant,
    frame_start: Option<u128>,
    subsystem_start: Option<u128>,
    last_reading: u128,
    triangle_count: u32,
    total_allocations: u64,
    total_bytes_uploaded: u64,
    total_frees: u64,
    total_bytes_freed: u64,
    current_memory_bytes: u64,
}

impl PerfTracker {
    /// The abstract state of this tracker.
    pub closed spec fn state(&self) -> PerfState {
        PerfState {
            frames: self.frames@,
            current: self.current,
            origin: self.origin,
            frame_start: self.frame_start,
            subsystem_start: self.subsystem_start,
            last_reading: self.last_reading,
            triangle_count: self.triangle_count,
            total_allocations: self.total_allocations,
            total_bytes_uploaded: self.total_bytes_uploaded,
            total_frees: self.total_frees,
            total_bytes_freed: self.total_bytes_freed,
            current_memory_bytes: self.current_memory_bytes,
        }
    }

    /// The tracker's invariant.
    pub open spec fn wf(&self) -> bool {
        self@.wf()
    }
}

impl View for PerfTracker {
    type V = PerfState;

    open spec fn view(&self) -> PerfState {
        self.state()
    }
}

impl PerfTracker {
    /// Takes a clock reading and keeps it as the latest one.
    fn read_clock(&mut self) -> (now: u128)
        requires
            old(self).wf(),
        ensures
            final(self).wf(),
            final(self)@ == (PerfState { last_reading: now, ..old(self)@ }),
    {
        let now = nanos_since(&self.origin);
        self.last_reading = now;
        now
    }
}

impl PerfTracker {
    /// Creates a tracker with no history and all counters at zero.
    pub fn new() -> (t: PerfTracker)
        ensures
            t.wf(),
            t@ == PerfState::initial(t@.origin),
    {
        PerfTracker {
            frames: VecDeque::with_capacity(WINDOW_SIZE),
            current: FrameMetrics::default(),
            origin: instant_now(),
            frame_start: None,
            subsystem_start: None,
            last_reading: 0,
            triangle_count: 0,
            total_allocations: 0,
            total_bytes_uploaded: 0,
            total_frees: 0,
            total_bytes_freed: 0,
            current_memory_bytes: 0,
        }
    }

    /// Call at the start of each frame.
    pub fn begin_frame(&mut self)
        requires
            old(self).wf(),
        ensures
            final(self).wf(),
            final(self)@ == old(self)@.begin(final(self)@.last_reading),
    {
        let now = self.read_clock();
        self.frame_start = Some(now);
        self.current = FrameMetrics::default();
    }

    /// Mark start of a subsystem (physics, query, render).
    pub fn mark_start(&mut self)
        requires
            old(self).wf(),
        ensures
            final(self).wf(),
            final(self)@ == old(self)@.start_subsystem(final(self)@.last_reading),
    {
        let now = self.read_clock();
        self.subsystem_start = Some(now);
    }

    /// Records a measured physics time, if any, in the current frame.
    pub fn record_physics(&mut self, elapsed_nanos: Option<u128>)
        requires
            old(self).wf(),
            elapsed_nanos matches Some(n) ==> n <= MAX_DURATION_NANOS,
        ensures
            final(self).wf(),
            final(self)@ == old(self)@.with_subsystem_time(Metric::PhysicsTime, elapsed_nanos),
    {
        if let Some(n) = elapsed_nanos {
            self.current.physics_nanos = n;
        }
    }

    /// Record physics time: the time from the `mark_start` reading to a new
    /// reading, when a subsystem timer runs; nothing changes otherwise.
    pub fn mark_physics(&mut self)
        requires
            old(self).wf(),
        ensures
            final(self).wf(),
            final(self)@ == old(self)@.end_subsystem(Metric::PhysicsTime, final(self)@.last_reading),
    {
        if let Some(start) = self.subsystem_start {
            let now = self.read_clock();
            self.subsystem_start = None;
            self.record_physics(Some(time_between(start, now)));
        }
    }

    /// Records a measured query time, if any, in the current frame.
    pub fn record_query(&mut self, elapsed_nanos: Option<u128>)
        requires
            old(self).wf(),
            elapsed_nanos matches Some(n) ==> n <= MAX_DURATION_NANOS,
        ensures
            final(self).wf(),
            final(self)@ == old(self)@.with_subsystem_time(Metric::QueryTime, elapsed_nanos),
    {
        if let Some(n) = elapsed_nanos {
            self.current.query_nanos = n;
        }
    }

    /// Record query time: the time from the `mark_start` reading to a new
    /// reading, when a subsystem timer runs; nothing changes otherwise.
    pub fn mark_query(&mut self)
        requires
            old(self).wf(),
        ensures
            final(self).wf(),
            final(self)@ == old(self)@.end_subsystem(Metric::QueryTime, final(self)@.last_reading),
    {
        if let Some(start) = self.subsystem_start {
            let now = self.read_clock();
            self.subsystem_start = None;
            self.record_query(Some(time_between(start, now)));
        }
    }

    /// Records a measured render time, if any, in the current frame.
    pub fn record_render(&mut self, elapsed_nanos: Option<u128>)
        requires
            old(self).wf(),
            elapsed_nanos matches Some(n) ==> n <= MAX_DURATION_NANOS,
        ensures
            final(self).wf(),
            final(self)@ == old(self)@.with_subsystem_time(Metric::RenderTime, elapsed_nanos),
    {
        if let Some(n) = elapsed_nanos {
            self.current.render_nanos = n;
        }
    }

    /// Record render time: the time from the `mark_start` reading to a new
    /// reading, when a subsystem timer runs; nothing changes otherwise.
    pub fn mark_render(&mut self)
        requires
            old(self).wf(),
        ensures
            final(self).wf(),
            final(self)@ == old(self)@.end_subsystem(Metric::RenderTime, final(self)@.last_reading),
    {
        if let Some(start) = self.subsystem_start {
            let now = self.read_clock();
            self.subsystem_start = None;
            self.record_render(Some(time_between(start, now)));
        }
    }

    /// Record a buffer allocation.
    pub fn record_allocation(&mut self, bytes: u64)
        requires
            old(self).wf(),
            old(self)@.can_allocate(bytes),
        ensures
            final(self).wf(),
            final(self)@ == old(self)@.allocate(bytes),
    {
        self.current.buffer_allocs = self.current.buffer_allocs + 1;
        self.current.bytes_uploaded = self.current.bytes_uploaded + bytes;
        self.total_allocations = self.total_allocations + 1;
        self.total_bytes_uploaded = self.total_bytes_uploaded + bytes;
        self.current_memory_bytes = self.current_memory_bytes + bytes;
    }

    /// Record a buffer free.
    pub fn record_free(&mut self, bytes: u64)
        requires
            old(self).wf(),
            old(self)@.can_free(bytes),
        ensures
            final(self).wf(),
            final(self)@ == old(self)@.free(bytes),
    {
        self.total_frees = self.total_frees + 1;
        self.total_bytes_freed = self.total_bytes_freed + bytes;
        self.current_memory_bytes = self.current_memory_bytes.saturating_sub(bytes);
    }

    /// Set triangle count for current frame.
    pub fn set_triangle_count(&mut self, count: u32)
        requires
            old(self).wf(),
        ensures
            final(self).wf(),
            final(self)@ == (PerfState { triangle_count: count, ..old(self)@ }),
    {
        self.triangle_count = count;
    }

    /// Ends the current frame with the given measured frame time, if any:
    /// the frame timer stops, the time becomes the frame's total, and the frame
    /// joins the history, which keeps the last `WINDOW_SIZE` frames.
    pub fn finish_frame(&mut self, elapsed_nanos: Option<u128>)
        requires
            old(self).wf(),
            elapsed_nanos matches Some(n) ==> n <= MAX_DURATION_NANOS,
        ensures
            final(self).wf(),
            final(self)@ == old(self)@.finish(elapsed_nanos),
    {
        self.frame_start = None;
        if let Some(n) = elapsed_nanos {
            self.current.total_nanos = n;
        }
        self.frames.push_back(self.current);
        if self.frames.len() > WINDOW_SIZE {
            self.frames.pop_front();
        }
    }

    /// Call at end of frame: the frame's total is the time from the
    /// `begin_frame` reading to a new reading, when a frame timer runs.
    pub fn end_frame(&mut self)
        requires
            old(self).wf(),
        ensures
            final(self).wf(),
            final(self)@ == old(self)@.end(final(self)@.last_reading),
    {
        let elapsed = match self.frame_start {
            Some(start) => {
                let now = self.read_clock();
                Some(time_between(start, now))
            },
            None => None,
        };
        self.finish_frame(elapsed);
    }
}

impl PerfTracker {
    /// Sum of one metric over the history.
    fn sum_metric(&self, k: Metric) -> (total: u128)
        requires
            self.wf(),
        ensures
            total == sum_by(self@.frames, k),
    {
        let n = self.frames.len();
        let mut acc: u128 = 0;
        let mut i: usize = 0;
        while i < n
            invariant
                self.wf(),
                n == self@.frames.len(),
                0 <= i <= n,
                acc == sum_by(self@.frames.take(i as int), k),
                acc <= i * MAX_DURATION_NANOS,
            decreases n - i,
        {
            let v = self.frames[i].value_of(k);
            proof {
                lemma_sum_take_step(self@.frames, i as int, k);
                assert(self@.frames[i as int].in_range());
            }
            acc = acc + v;
            i = i + 1;
        }
        proof {
            assert(self@.frames.take(n as int) =~= self@.frames);
        }
        acc
    }

    /// Average of one metric over the history, rounded down; 0 with no history.
    fn average_metric(&self, k: Metric) -> (avg: u128)
        requires
            self.wf(),
        ensures
            avg == average_by(self@.frames, k),
    {
        let n = self.frames.len();
        if n == 0 {
            return 0;
        }
        let total = self.sum_metric(k);
        total / (n as u128)
    }

    /// Smallest and largest value of one metric over a non-empty history.
    fn min_max_metric(&self, k: Metric) -> (r: (u128, u128))
        requires
            self.wf(),
            self@.frames.len() > 0,
        ensures
            r.0 == min_by(self@.frames, k),
            r.1 == max_by(self@.frames, k),
    {
        let n = self.frames.len();
        let first = self.frames[0].value_of(k);
        let mut lo: u128 = first;
        let mut hi: u128 = first;
        let mut i: usize = 1;
        proof {
            assert(self@.frames.take(1).len() == 1);
            assert(self@.frames.take(1)[0] == self@.frames[0]);
        }
        while i < n
            invariant
                self.wf(),
                n == self@.frames.len(),
                1 <= i <= n,
                lo == min_by(self@.frames.take(i as int), k),
                hi == max_by(self@.frames.take(i as int), k),
            decreases n - i,
        {
            let v = self.frames[i].value_of(k);
            proof {
                lemma_min_max_take_step(self@.frames, i as int, k);
            }
            if v < lo {
                lo = v;
            }
            if v > hi {
                hi = v;
            }
            i = i + 1;
        }
        proof {
            assert(self@.frames.take(n as int) =~= self@.frames);
        }
        (lo, hi)
    }

    /// Average frame time over the window, in nanoseconds rounded down; 0 with no history.
    pub fn avg_frame_time(&self) -> (avg: u128)
        requires
            self.wf(),
        ensures
            avg == average_by(self@.frames, Metric::TotalTime),
    {
        self.average_metric(Metric::TotalTime)
    }

    /// Min/Max frame time over the window, in nanoseconds (for detecting
    /// stutter); `(0, 0)` with no history.
    pub fn min_max_frame_time(&self) -> (r: (u128, u128))
        requires
            self.wf(),
        ensures
            self@.frames.len() == 0 ==> r == (0u128, 0u128),
            self@.frames.len() > 0 ==> r.0 == min_by(self@.frames, Metric::TotalTime) && r.1
                == max_by(self@.frames, Metric::TotalTime),
    {
        if self.frames.len() == 0 {
            return (0, 0);
        }
        self.min_max_metric(Metric::TotalTime)
    }

    /// Average physics, query and render times over the window, in nanoseconds
    /// rounded down; zeros with no history.
    pub fn avg_subsystems(&self) -> (r: (u128, u128, u128))
        requires
            self.wf(),
        ensures
            r.0 == average_by(self@.frames, Metric::PhysicsTime),
            r.1 == average_by(self@.frames, Metric::QueryTime),
            r.2 == average_by(self@.frames, Metric::RenderTime),
    {
        let physics = self.average_metric(Metric::PhysicsTime);
        let query = self.average_metric(Metric::QueryTime);
        let render = self.average_metric(Metric::RenderTime);
        (physics, query, render)
    }

    /// Total buffer allocations and total uploaded bytes over the window; the
    /// per-frame averages are these divided by [`PerfTracker::frame_count`].
    pub fn allocation_totals(&self) -> (r: (u128, u128))
        requires
            self.wf(),
        ensures
            r.0 == sum_by(self@.frames, Metric::BufferAllocs),
            r.1 == sum_by(self@.frames, Metric::BytesUploaded),
    {
        let allocs = self.sum_metric(Metric::BufferAllocs);
        let bytes = self.sum_metric(Metric::BytesUploaded);
        (allocs, bytes)
    }

    /// Total time of the most recent finished frame, if there is one.
    pub fn last_frame_time(&self) -> (t: Option<u128>)
        requires
            self.wf(),
        ensures
            self@.frames.len() == 0 ==> t is None,
            self@.frames.len() > 0 ==> t == Some(self@.frames.last().total_nanos),
    {
        let n = self.frames.len();
        if n == 0 {
            None
        } else {
            Some(self.frames[n - 1].total_nanos)
        }
    }

    /// Number of finished frames in the window.
    pub fn frame_count(&self) -> (n: usize)
        ensures
            n == self@.frames.len(),
    {
        self.frames.len()
    }

    /// The metrics of the frame being recorded.
    pub fn current_frame(&self) -> (m: FrameMetrics)
        ensures
            m == self@.current,
    {
        self.current
    }

    /// Triangle count last reported.
    pub fn triangle_count(&self) -> (c: u32)
        ensures
            c == self@.triangle_count,
    {
        self.triangle_count
    }

    /// Buffer allocations since creation.
    pub fn total_allocations(&self) -> (c: u64)
        ensures
            c == self@.total_allocations,
    {
        self.total_allocations
    }

    /// Bytes uploaded since creation.
    pub fn total_bytes_uploaded(&self) -> (c: u64)
        ensures
            c == self@.total_bytes_uploaded,
    {
        self.total_bytes_uploaded
    }

    /// Buffer frees since creation.
    pub fn total_frees(&self) -> (c: u64)
        ensures
            c == self@.total_frees,
    {
        self.total_frees
    }

    /// Bytes freed since creation.
    pub fn total_bytes_freed(&self) -> (c: u64)
        ensures
            c == self@.total_bytes_freed,
    {
        self.total_bytes_freed
    }

    /// Bytes currently allocated.
    pub fn current_memory_bytes(&self) -> (c: u64)
        ensures
            c == self@.current_memory_bytes,
    {
        self.current_memory_bytes
    }
}

impl Default for PerfTracker {
    fn default() -> (t: PerfTracker)
        ensures
            t.wf(),
            t@ == PerfState::initial(t@.origin),
    {
        PerfTracker::new()
    }
}

} // verus!
