use vstd::prelude::*;

verus! {

/// How far, in pixels, a newly shown slide starts from its resting place.
pub const ENTER_DISTANCE: u32 = 20;

/// How long, in milliseconds, a slide takes to come to rest.
pub const TRANSITION_MS: u32 = 250;

/// Extra padding on either side of the slide while it moves in.
#[derive(Clone, Copy, Debug, PartialEq, Eq, Structural)]
pub struct SlideOffset {
    pub left: u32,
    pub right: u32,
}

impl SlideOffset {
    /// The resting offset: no padding on either side.
    pub fn settled() -> (r: SlideOffset)
        ensures
            r.left == 0,
            r.right == 0,
    {
        SlideOffset { left: 0, right: 0 }
    }

    /// Where a slide starts when the user moves forward.
    pub fn entering_forward() -> (r: SlideOffset)
        ensures
            r.left == ENTER_DISTANCE,
            r.right == 0,
    {
        SlideOffset { left: ENTER_DISTANCE, right: 0 }
    }

    /// Where a slide starts when the user moves backward.
    pub fn entering_backward() -> (r: SlideOffset)
        ensures
            r.left == 0,
            r.right == ENTER_DISTANCE,
    {
        SlideOffset { left: 0, right: ENTER_DISTANCE }
    }

    /// Whether the offset is the resting one.
    pub open spec fn is_settled(self) -> bool {
        self.left == 0 && self.right == 0
    }
}

/// The point reached after `elapsed` of `TRANSITION_MS` milliseconds on the
/// straight way from `from` to `to`, rounded towards `from`.
pub open spec fn lerp(from: u32, to: u32, elapsed: u32) -> u32 {
    if from >= to {
        (from - ((from - to) * elapsed) / (TRANSITION_MS as int)) as u32
    } else {
        (from + ((to - from) * elapsed) / (TRANSITION_MS as int)) as u32
    }
}

/// `lerp` on both sides of an offset.
pub open spec fn lerp_offset(from: SlideOffset, to: SlideOffset, elapsed: u32) -> SlideOffset {
    SlideOffset { left: lerp(from.left, to.left, elapsed), right: lerp(from.right, to.right, elapsed) }
}

/// A slide offset that moves in a straight line towards a target over
/// `TRANSITION_MS` milliseconds, advanced by the time that frames report.
#[derive(Clone, Copy, Debug)]
pub struct AnimatedOffset {
    from: SlideOffset,
    target: SlideOffset,
    elapsed_ms: u32,
}

/// What an `AnimatedOffset` is at any moment.
pub struct AnimatedOffsetView {
    pub from: SlideOffset,
    pub target: SlideOffset,
    pub elapsed_ms: u32,
}

impl View for AnimatedOffset {
    type V = AnimatedOffsetView;

    closed spec fn view(&self) -> AnimatedOffsetView {
        AnimatedOffsetView { from: self.from, target: self.target, elapsed_ms: self.elapsed_ms }
    }
}

impl AnimatedOffsetView {
    /// The elapsed time never passes the length of the transition.
    pub open spec fn wf(self) -> bool {
        self.elapsed_ms <= TRANSITION_MS
    }

    /// The offset shown at this moment.
    pub open spec fn value(self) -> SlideOffset {
        lerp_offset(self.from, self.target, self.elapsed_ms)
    }

    /// The state after a frame that reports `dt_ms` milliseconds.
    pub open spec fn advanced(self, dt_ms: u32) -> AnimatedOffsetView {
        AnimatedOffsetView {
            elapsed_ms: if self.elapsed_ms + dt_ms >= TRANSITION_MS {
                TRANSITION_MS
            } else {
                (self.elapsed_ms + dt_ms) as u32
            },
            ..self
        }
    }

    /// The state after a run of frames, in order.
    pub open spec fn advanced_by(self, dts: Seq<u32>) -> AnimatedOffsetView
        decreases dts.len(),
    {
        if dts.len() == 0 {
            self
        } else {
            self.advanced(dts[0]).advanced_by(dts.drop_first())
        }
    }
}

/// Total time that a run of frames reports.
pub open spec fn total_ms(dts: Seq<u32>) -> int
    decreases dts.len(),
{
    if dts.len() == 0 {
        0
    } else {
        dts[0] + total_ms(dts.drop_first())
    }
}

/// At the end of the transition the value is the target.
pub proof fn lemma_lerp_end(from: u32, to: u32)
    ensures
        lerp(from, to, TRANSITION_MS) == to,
{
    assert((from - to) * TRANSITION_MS / (TRANSITION_MS as int) == from - to) by (nonlinear_arith);
    assert((to - from) * TRANSITION_MS / (TRANSITION_MS as int) == to - from) by (nonlinear_arith);
}

/// A component that starts and ends at zero stays at zero.
pub proof fn lemma_lerp_zero(elapsed: u32)
    ensures
        lerp(0, 0, elapsed) == 0,
{
    assert(0 * elapsed == 0) by (nonlinear_arith);
}

/// At the start of the transition the value is where it started.
pub proof fn lemma_lerp_start(from: u32, to: u32)
    ensures
        lerp(from, to, 0) == from,
{
}

/// Frames that report at least the length of the transition bring it to its end.
pub proof fn lemma_advanced_by_total(a: AnimatedOffsetView, dts: Seq<u32>)
    requires
        a.wf(),
    ensures
        a.advanced_by(dts).wf(),
        a.advanced_by(dts).from == a.from,
        a.advanced_by(dts).target == a.target,
        a.advanced_by(dts).elapsed_ms >= a.elapsed_ms,
        a.elapsed_ms + total_ms(dts) >= TRANSITION_MS ==> a.advanced_by(dts).elapsed_ms
            == TRANSITION_MS,
    decreases dts.len(),
{
    if dts.len() > 0 {
        let b = a.advanced(dts[0]);
        lemma_advanced_by_total(b, dts.drop_first());
    }
}

/// The value at the end of the transition is the target.
pub proof fn lemma_finished_value(a: AnimatedOffsetView)
    requires
        a.elapsed_ms == TRANSITION_MS,
    ensures
        a.value() == a.target,
{
    lemma_lerp_end(a.from.left, a.target.left);
    lemma_lerp_end(a.from.right, a.target.right);
}

/// A component between two `u32` bounds, so that `lerp` stays in range.
proof fn lemma_lerp_bounds(from: u32, to: u32, elapsed: u32)
    requires
        elapsed <= TRANSITION_MS,
    ensures
        0 <= (from - to) * elapsed / (TRANSITION_MS as int) <= from - to || from < to,
        0 <= (to - from) * elapsed / (TRANSITION_MS as int) <= to - from || from >= to,
{
    if from >= to {
        let d = from - to;
        assert(0 <= d * elapsed <= d * TRANSITION_MS) by (nonlinear_arith)
            requires
                d >= 0,
                0 <= elapsed <= TRANSITION_MS,
        ;
        assert(d * TRANSITION_MS / (TRANSITION_MS as int) == d) by (nonlinear_arith);
        assert(d * elapsed / (TRANSITION_MS as int) <= d * TRANSITION_MS / (TRANSITION_MS as int))
            by (nonlinear_arith)
            requires
                d * elapsed <= d * TRANSITION_MS,
        ;
        assert(0 <= d * elapsed / (TRANSITION_MS as int)) by (nonlinear_arith)
            requires
                0 <= d * elapsed,
        ;
    } else {
        let d = to - from;
        assert(0 <= d * elapsed <= d * TRANSITION_MS) by (nonlinear_arith)
            requires
                d >= 0,
                0 <= elapsed <= TRANSITION_MS,
        ;
        assert(d * TRANSITION_MS / (TRANSITION_MS as int) == d) by (nonlinear_arith);
        assert(d * elapsed / (TRANSITION_MS as int) <= d * TRANSITION_MS / (TRANSITION_MS as int))
            by (nonlinear_arith)
            requires
                d * elapsed <= d * TRANSITION_MS,
        ;
        assert(0 <= d * elapsed / (TRANSITION_MS as int)) by (nonlinear_arith)
            requires
                0 <= d * elapsed,
        ;
    }
}

/// Computes `lerp` without overflow.
fn lerp_exec(from: u32, to: u32, elapsed: u32) -> (r: u32)
    requires
        elapsed <= TRANSITION_MS,
    ensures
        r == lerp(from, to, elapsed),
{
    proof {
        lemma_lerp_bounds(from, to, elapsed);
    }
    if from >= to {
        let d = ((from - to) as u64) * (elapsed as u64) / (TRANSITION_MS as u64);
        from - (d as u32)
    } else {
        let d = ((to - from) as u64) * (elapsed as u64) / (TRANSITION_MS as u64);
        from + (d as u32)
    }
}

impl AnimatedOffset {
    /// An animation resting at `value`.
    pub fn new(value: SlideOffset) -> (r: AnimatedOffset)
        ensures
            r@.wf(),
            r@.value() == value,
            r@.from == value,
            r@.target == value,
    {
        proof {
            lemma_lerp_end(value.left, value.left);
            lemma_lerp_end(value.right, value.right);
        }
        AnimatedOffset { from: value, target: value, elapsed_ms: TRANSITION_MS }
    }

    /// The offset shown at this moment.
    pub fn value(&self) -> (r: SlideOffset)
        requires
            self@.wf(),
        ensures
            r == self@.value(),
    {
        SlideOffset {
            left: lerp_exec(self.from.left, self.target.left, self.elapsed_ms),
            right: lerp_exec(self.from.right, self.target.right, self.elapsed_ms),
        }
    }

    /// Where the animation is heading.
    pub fn target(&self) -> (r: SlideOffset)
        ensures
            r == self@.target,
    {
        self.target
    }

    /// Starts a new transition from the current value towards `target`.
    pub fn set_target(&mut self, target: SlideOffset)
        requires
            old(self)@.wf(),
        ensures
            final(self)@.wf(),
            final(self)@.from == old(self)@.value(),
            final(self)@.target == target,
            final(self)@.elapsed_ms == 0,
            final(self)@.value() == old(self)@.value(),
    {
        let v = self.value();
        proof {
            lemma_lerp_start(v.left, target.left);
            lemma_lerp_start(v.right, target.right);
        }
        self.from = v;
        self.target = target;
        self.elapsed_ms = 0;
    }

    /// Advances the transition by a frame that reports `dt_ms` milliseconds.
    pub fn update(&mut self, dt_ms: u32)
        requires
            old(self)@.wf(),
        ensures
            final(self)@ == old(self)@.advanced(dt_ms),
            final(self)@.wf(),
    {
        if dt_ms >= TRANSITION_MS - self.elapsed_ms {
            self.elapsed_ms = TRANSITION_MS;
        } else {
            self.elapsed_ms = self.elapsed_ms + dt_ms;
        }
    }

    /// Whether the value has reached its target.
    pub fn is_finished(&self) -> (r: bool)
        requires
            self@.wf(),
        ensures
            r <==> self@.value() == self@.target,
    {
        self.value() == self.target
    }
}

} // verus!
