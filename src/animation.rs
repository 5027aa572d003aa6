//! Sprite-sheet animations: a list of frames, each shown for a set time, and
//! the clock that plays them back.

use vstd::prelude::*;

verus! {

/// Nanoseconds in a millisecond.
pub const NANOS_PER_MILLI: u128 = 1_000_000;

/// Longest span a clock holds, in nanoseconds (`u64::MAX` seconds and
/// 999,999,999 nanoseconds); longer totals are cut to it.
pub const MAX_SPAN_NANOS: u128 = 18_446_744_073_709_551_615_999_999_999;

/// One picture of an animation: a cell of the sprite sheet and how long it
/// stays on screen.
#[derive(Clone, Copy, Debug, PartialEq, Eq, Structural)]
pub struct Frame {
    pub index: usize,
    pub duration_ms: u64,
}

impl Frame {
    /// How long the frame is shown, in nanoseconds.
    pub open spec fn nanos(self) -> int {
        self.duration_ms * NANOS_PER_MILLI
    }
}

/// `a + b`, cut to the longest span a clock holds.
pub open spec fn capped_sum(a: int, b: int) -> int {
    if a + b > MAX_SPAN_NANOS {
        MAX_SPAN_NANOS as int
    } else {
        a + b
    }
}

/// The frames described by pairs of a sprite index and a time in milliseconds.
pub open spec fn frames_of(data: Seq<(usize, u64)>) -> Seq<Frame> {
    Seq::new(data.len(), |i: int| Frame { index: data[i].0, duration_ms: data[i].1 })
}

/// Time from the start of the animation to the end of its first `n` frames.
pub open spec fn span_through(frames: Seq<Frame>, n: int) -> int
    decreases n,
{
    if n <= 0 {
        0
    } else {
        capped_sum(span_through(frames, n - 1), frames[n - 1].nanos())
    }
}

/// Position, from `i` on, of the first frame that ends at or after `elapsed`;
/// the last frame when none before it does.
pub open spec fn first_ending_from(frames: Seq<Frame>, elapsed: int, i: int) -> int
    decreases frames.len() - i,
{
    if i >= frames.len() - 1 {
        frames.len() - 1
    } else if span_through(frames, i + 1) >= elapsed {
        i
    } else {
        first_ending_from(frames, elapsed, i + 1)
    }
}

/// Position of the frame on screen `elapsed` nanoseconds into the animation.
pub open spec fn shown_position(frames: Seq<Frame>, elapsed: int) -> int {
    first_ending_from(frames, elapsed, 0)
}

/// What a playback clock holds.
pub struct ClockView {
    pub duration: nat,
    pub elapsed: nat,
    pub repeating: bool,
    pub finished: bool,
    pub just_finished: bool,
}

/// The clock after `delta` nanoseconds. A finished clock that does not repeat
/// stays where it is. Otherwise the time is added; on reaching the duration a
/// repeating clock keeps what lies past its last completed lap, laps being
/// counted in a `u32`, and another one stops at the duration.
pub open spec fn ticked(c: ClockView, delta: nat) -> ClockView {
    if c.finished && !c.repeating {
        ClockView { just_finished: false, ..c }
    } else {
        let (elapsed, finished, laps) = timer_outcome(
            c.duration as int,
            (c.elapsed + delta) as int,
            c.repeating,
        );
        ClockView { elapsed: elapsed as nat, finished, just_finished: laps > 0, ..c }
    }
}

/// Elapsed time, whether finished, and laps completed, of a running timer of
/// duration `d` once the time it holds has grown to `e`.
pub open spec fn timer_outcome(d: int, e: int, repeating: bool) -> (int, bool, int) {
    if e < d {
        (e, false, 0)
    } else if repeating {
        let laps = (e / d) % 0x1_0000_0000;
        (e - d * laps, true, laps)
    } else {
        (d, true, 1)
    }
}

/// Whether a tick of `delta` nanoseconds is one the clock can take: the time
/// it adds up must fit, and a repeating clock needs a non-zero duration.
pub open spec fn can_tick(c: ClockView, delta: nat) -> bool {
    &&& delta <= MAX_SPAN_NANOS
    &&& !(c.finished && !c.repeating) ==> c.elapsed + delta <= MAX_SPAN_NANOS
    &&& c.repeating ==> c.duration > 0
}

/// Nanoseconds in a second.
pub const NANOS_PER_SEC: u128 = 1_000_000_000;

/// `secs` seconds and `nanos` nanoseconds, in nanoseconds.
pub open spec fn span_of(secs: u64, nanos: u32) -> int {
    secs * NANOS_PER_SEC + nanos
}

/// Relies on bevy's `Timer` (`new`, `set_elapsed`, `tick`, `elapsed`,
/// `finished`, `times_finished`) and on `Duration::new`, `as_secs` and
/// `subsec_nanos`: a new timer is not paused, so `tick` adds the delta to the
/// elapsed time `e`; from the duration `d` on the timer is finished, and a
/// repeating one counts `e / d` laps, cast to `u32`, and keeps what is left
/// past them, while another stops at `d` after one lap. `tick` panics when the
/// sum does not fit a `Duration`, and on a repeating timer of zero duration.
#[verifier::external_body]
fn engine_tick(duration: (u64, u32), elapsed: (u64, u32), repeating: bool, delta: (u64, u32)) -> (r:
    (u64, u32, bool, u32))
    requires
        duration.1 < NANOS_PER_SEC,
        elapsed.1 < NANOS_PER_SEC,
        delta.1 < NANOS_PER_SEC,
        span_of(elapsed.0, elapsed.1) + span_of(delta.0, delta.1) <= MAX_SPAN_NANOS,
        repeating ==> span_of(duration.0, duration.1) > 0,
    ensures
        r.1 < NANOS_PER_SEC,
        (span_of(r.0, r.1), r.2, r.3 as int) == timer_outcome(
            span_of(duration.0, duration.1),
            span_of(elapsed.0, elapsed.1) + span_of(delta.0, delta.1),
            repeating,
        ),
{
    let mut timer = bevy::core::Timer::new(
        std::time::Duration::new(duration.0, duration.1),
        repeating,
    );
    timer.set_elapsed(std::time::Duration::new(elapsed.0, elapsed.1));
    timer.tick(std::time::Duration::new(delta.0, delta.1));
    let e = timer.elapsed();
    (e.as_secs(), e.subsec_nanos(), timer.finished(), timer.times_finished())
}

/// Seconds and nanoseconds of a span.
fn split_span(n: u128) -> (r: (u64, u32))
    requires
        n <= MAX_SPAN_NANOS,
    ensures
        r.1 < NANOS_PER_SEC,
        span_of(r.0, r.1) == n,
{
    let secs = n / NANOS_PER_SEC;
    let nanos = n % NANOS_PER_SEC;
    (secs as u64, nanos as u32)
}

/// A span given in seconds and nanoseconds.
fn join_span(secs: u64, nanos: u32) -> (r: u128)
    requires
        nanos < NANOS_PER_SEC,
    ensures
        r == span_of(secs, nanos),
        r <= MAX_SPAN_NANOS,
{
    secs as u128 * NANOS_PER_SEC + nanos as u128
}

/// Playback clock of an animation.
#[derive(Clone, Copy, Debug)]
pub struct AnimationTimer {
    duration: u128,
    elapsed: u128,
    repeating: bool,
    finished: bool,
    just_finished: bool,
}

impl View for AnimationTimer {
    type V = ClockView;

    closed spec fn view(&self) -> ClockView {
        ClockView {
            duration: self.duration as nat,
            elapsed: self.elapsed as nat,
            repeating: self.repeating,
            finished: self.finished,
            just_finished: self.just_finished,
        }
    }
}

impl AnimationTimer {
    /// Duration and elapsed time each fit the longest span.
    pub closed spec fn wf(&self) -> bool {
        &&& self.duration <= MAX_SPAN_NANOS
        &&& self.elapsed <= MAX_SPAN_NANOS
    }

    /// A clock at zero, running for `duration` nanoseconds.
    pub fn new(duration: u128, repeating: bool) -> (r: AnimationTimer)
        requires
            duration <= MAX_SPAN_NANOS,
        ensures
            r.wf(),
            r@ == (ClockView {
                duration: duration as nat,
                elapsed: 0,
                repeating,
                finished: false,
                just_finished: false,
            }),
    {
        AnimationTimer { duration, elapsed: 0, repeating, finished: false, just_finished: false }
    }

    /// Lets `delta` nanoseconds pass.
    pub fn tick(&mut self, delta: u128)
        requires
            old(self).wf(),
            can_tick(old(self)@, delta as nat),
        ensures
            final(self).wf(),
            final(self)@ == ticked(old(self)@, delta as nat),
    {
        if self.finished && !self.repeating {
            self.just_finished = false;
            return ;
        }
        let (secs, nanos, finished, laps) = engine_tick(
            split_span(self.duration),
            split_span(self.elapsed),
            self.repeating,
            split_span(delta),
        );
        self.elapsed = join_span(secs, nanos);
        self.finished = finished;
        self.just_finished = laps > 0;
    }

    pub fn duration_nanos(&self) -> (r: u128)
        ensures
            r == self@.duration,
    {
        self.duration
    }

    pub fn elapsed_nanos(&self) -> (r: u128)
        ensures
            r == self@.elapsed,
    {
        self.elapsed
    }

    pub fn repeating(&self) -> (r: bool)
        ensures
            r == self@.repeating,
    {
        self.repeating
    }

    pub fn finished(&self) -> (r: bool)
        ensures
            r == self@.finished,
    {
        self.finished
    }

    /// Whether the last tick reached the duration.
    pub fn just_finished(&self) -> (r: bool)
        ensures
            r == self@.just_finished,
    {
        self.just_finished
    }
}

/// Frames played one after another, once or in a loop.
#[derive(Clone, Debug)]
pub struct Animation {
    frames: Vec<Frame>,
    timer: AnimationTimer,
}

impl Animation {
    /// The frames, in the order they are shown.
    pub closed spec fn spec_frames(&self) -> Seq<Frame> {
        self.frames@
    }

    /// The state of the playback clock.
    pub closed spec fn clock(&self) -> ClockView {
        self.timer@
    }

    /// The clock holds spans that fit.
    pub closed spec fn wf(&self) -> bool {
        self.timer.wf()
    }

    /// An animation of the given frames, each a sprite index and a time in
    /// milliseconds. Its clock runs for all frames together.
    pub fn new(frame_data: Vec<(usize, u64)>, repeating: bool) -> (r: Animation)
        ensures
            r.wf(),
            r.spec_frames() == frames_of(frame_data@),
            r.clock() == (ClockView {
                duration: span_through(r.spec_frames(), r.spec_frames().len() as int) as nat,
                elapsed: 0,
                repeating,
                finished: false,
                just_finished: false,
            }),
    {
        let mut frames: Vec<Frame> = Vec::new();
        let mut total: u128 = 0;
        let n = frame_data.len();
        for i in 0..n
            invariant
                n == frame_data@.len(),
                frames@.len() == i,
                forall|k: int|
                    0 <= k < i ==> #[trigger] frames@[k] == (Frame {
                        index: frame_data@[k].0,
                        duration_ms: frame_data@[k].1,
                    }),
                total == span_through(frames@, i as int),
                total <= MAX_SPAN_NANOS,
        {
            let (index, duration_ms) = frame_data[i];
            let frame = Frame { index, duration_ms };
            let sum = total + duration_ms as u128 * NANOS_PER_MILLI;
            total = if sum > MAX_SPAN_NANOS {
                MAX_SPAN_NANOS
            } else {
                sum
            };
            proof {
                lemma_span_through_prefix(frames@.push(frame), i as int);
                assert(frames@.push(frame).subrange(0, i as int) =~= frames@);
            }
            frames.push(frame);
        }
        assert(frames@ =~= frames_of(frame_data@));
        let timer = AnimationTimer::new(total, repeating);
        Animation { frames, timer }
    }

    pub fn frames(&self) -> (r: &Vec<Frame>)
        ensures
            r@ == self.spec_frames(),
    {
        &self.frames
    }

    pub fn timer(&self) -> (r: &AnimationTimer)
        ensures
            r@ == self.clock(),
    {
        &self.timer
    }

    /// Lets `delta` nanoseconds pass and returns the sprite index to show.
    pub fn advance(&mut self, delta: u128) -> (r: usize)
        requires
            old(self).wf(),
            old(self).spec_frames().len() > 0,
            can_tick(old(self).clock(), delta as nat),
        ensures
            final(self).wf(),
            final(self).spec_frames() == old(self).spec_frames(),
            final(self).clock() == ticked(old(self).clock(), delta as nat),
            r == final(self).spec_frames()[shown_position(
                final(self).spec_frames(),
                final(self).clock().elapsed as int,
            )].index,
    {
        self.timer.tick(delta);
        let pos = shown_frame(&self.frames, self.timer.elapsed_nanos());
        self.frames[pos].index
    }
}

/// Span through `n` frames depends only on those frames.
proof fn lemma_span_through_prefix(frames: Seq<Frame>, n: int)
    requires
        0 <= n <= frames.len(),
    ensures
        span_through(frames, n) == span_through(frames.subrange(0, n), n),
    decreases n,
{
    if n > 0 {
        lemma_span_through_prefix(frames, n - 1);
        lemma_span_through_prefix(frames.subrange(0, n), n - 1);
        assert(frames.subrange(0, n).subrange(0, n - 1) =~= frames.subrange(0, n - 1));
    }
}

/// Position of the frame on screen `elapsed` nanoseconds into the animation:
/// the first whose end, counted from the start, is at or after `elapsed`, or
/// the last frame when none is.
pub fn shown_frame(frames: &Vec<Frame>, elapsed: u128) -> (r: usize)
    requires
        frames@.len() > 0,
    ensures
        r == shown_position(frames@, elapsed as int),
        r < frames@.len(),
{
    let last = frames.len() - 1;
    let mut i: usize = 0;
    let mut end: u128 = 0;
    while i < last
        invariant
            last == frames@.len() - 1,
            i <= last,
            end == span_through(frames@, i as int),
            end <= MAX_SPAN_NANOS,
            shown_position(frames@, elapsed as int) == first_ending_from(
                frames@,
                elapsed as int,
                i as int,
            ),
        decreases last - i,
    {
        let sum = end + frames[i].duration_ms as u128 * NANOS_PER_MILLI;
        end = if sum > MAX_SPAN_NANOS {
            MAX_SPAN_NANOS
        } else {
            sum
        };
        if end >= elapsed {
            return i;
        }
        i = i + 1;
    }
    last
}

} // verus!
