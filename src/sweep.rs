use vstd::prelude::*;
use crate::params::{LineKind, Params};
use crate::phase::{phase_spec, Phase};

verus! {

/// Degrees in one revolution of the sweep angle.
pub const REVOLUTION: u64 = 360;

/// Width of the window of angles that the outer curve shows per frame.
pub const OUTER_WIDTH: u64 = 20;

/// Width of the window of angles that the inner curve shows per frame.
pub const INNER_WIDTH: u64 = 180;

/// The widest window that `sweep_window` takes: its angles must fit an `i64`.
pub const MAX_WIDTH: u64 = 0x7fff_ffff_ffff_fe00;

/// `width` consecutive angles, starting at `frame` reduced to one revolution.
pub open spec fn window_spec(frame: int, width: int) -> Seq<i64> {
    Seq::new(width as nat, |i: int| (frame % (REVOLUTION as int) + i) as i64)
}

/// The angles of a whole revolution, both ends included.
pub open spec fn revolution_spec() -> Seq<i64> {
    Seq::new((REVOLUTION + 1) as nat, |i: int| i as i64)
}

/// The phases of the curve `kind` at each of `angles`, in their order.
pub open spec fn curve_spec(kind: LineKind, angles: Seq<i64>, p: Params) -> Seq<Phase> {
    Seq::new(angles.len(), |i: int| phase_spec(angles[i] as int, kind, p))
}

/// The window of `width` angles that an animation shows at frame `frame`:
/// it starts at `frame % 360` and counts up by one degree.
pub fn sweep_window(frame: u64, width: u64) -> (r: Vec<i64>)
    requires
        width <= MAX_WIDTH,
    ensures
        r@ == window_spec(frame as int, width as int),
{
    let start: u64 = frame % REVOLUTION;
    let mut r: Vec<i64> = Vec::new();
    let mut i: u64 = 0;
    while i < width
        invariant
            i <= width,
            width <= MAX_WIDTH,
            start == frame % REVOLUTION,
            start < REVOLUTION,
            r@ == window_spec(frame as int, i as int),
        decreases width - i,
    {
        r.push((start + i) as i64);
        i = i + 1;
        assert(r@ =~= window_spec(frame as int, i as int));
    }
    r
}

/// The angles `0, 1, ..., 360` of a whole revolution, both ends included,
/// for a still picture of a closed curve.
pub fn full_revolution() -> (r: Vec<i64>)
    ensures
        r@ == revolution_spec(),
        r@.len() == REVOLUTION + 1,
{
    let mut r: Vec<i64> = Vec::new();
    let mut i: u64 = 0;
    while i <= REVOLUTION
        invariant
            i <= REVOLUTION + 1,
            r@ =~= Seq::new(i as nat, |j: int| j as i64),
        decreases REVOLUTION + 1 - i,
    {
        r.push(i as i64);
        i = i + 1;
    }
    assert(r@ =~= revolution_spec());
    r
}

/// The curve `kind` over `angles`: one phase per angle, in the order of the
/// angles, so the curve has exactly as many points as there are angles.
pub fn generate_curve(kind: LineKind, angles: &Vec<i64>, params: &Params) -> (r: Vec<Phase>)
    ensures
        r@ == curve_spec(kind, angles@, *params),
        r@.len() == angles@.len(),
        forall|i: int| 0 <= i < angles@.len() ==> #[trigger] r@[i] == phase_spec(angles@[i] as int, kind, *params),
{
    let mut r: Vec<Phase> = Vec::new();
    let mut i: usize = 0;
    while i < angles.len()
        invariant
            i <= angles@.len(),
            r@ =~= curve_spec(kind, angles@.take(i as int), *params),
        decreases angles@.len() - i,
    {
        r.push(Phase::at(angles[i], kind, params));
        i = i + 1;
        assert(r@ =~= curve_spec(kind, angles@.take(i as int), *params));
    }
    assert(angles@.take(angles@.len() as int) =~= angles@);
    r
}

/// A curve depends on its explicit inputs alone: two computations from the
/// same kind, angles and parameters give the same phases.
pub proof fn lemma_curve_deterministic(
    kind: LineKind,
    angles1: Seq<i64>,
    angles2: Seq<i64>,
    p1: Params,
    p2: Params,
)
    requires
        angles1 == angles2,
        p1 == p2,
    ensures
        curve_spec(kind, angles1, p1) == curve_spec(kind, angles2, p2),
{
}

/// What one frame of the animation draws.
pub struct Frame {
    pub outer: Vec<Phase>,
    pub inner: Vec<Phase>,
}

/// The state that an animation carries from frame to frame: the parameters,
/// whose `d` grows by an eighth per frame.
#[derive(Debug, Clone, Copy, PartialEq, Eq, Structural)]
pub struct Animation {
    pub params: Params,
}

impl Animation {
    /// An animation that starts from `params`.
    pub fn new(params: Params) -> (r: Animation)
        ensures
            r.params == params,
    {
        Animation { params }
    }

    /// Moves the animation on to frame `elapsed_frames`: `d` grows by one
    /// eighth, then the outer curve is drawn over a window of 20 degrees and
    /// the inner curve over one of 180 degrees, both starting at
    /// `elapsed_frames % 360`.
    pub fn update(&mut self, elapsed_frames: u64) -> (r: Frame)
        requires
            old(self).params.d_eighths < i64::MAX,
        ensures
            final(self).params == (Params {
                d_eighths: (old(self).params.d_eighths + 1) as i64,
                ..old(self).params
            }),
            r.outer@ == curve_spec(
                LineKind::Outer,
                window_spec(elapsed_frames as int, OUTER_WIDTH as int),
                final(self).params,
            ),
            r.inner@ == curve_spec(
                LineKind::Inner,
                window_spec(elapsed_frames as int, INNER_WIDTH as int),
                final(self).params,
            ),
    {
        self.params.d_eighths = self.params.d_eighths + 1;
        let outer_angles = sweep_window(elapsed_frames, OUTER_WIDTH);
        let inner_angles = sweep_window(elapsed_frames, INNER_WIDTH);
        let outer = generate_curve(LineKind::Outer, &outer_angles, &self.params);
        let inner = generate_curve(LineKind::Inner, &inner_angles, &self.params);
        Frame { outer, inner }
    }
}

} // verus!
