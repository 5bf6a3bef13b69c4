use vstd::prelude::*;
use vstd::arithmetic::div_mod::lemma_div_is_ordered;
use crate::params::CurveError;

verus! {

/// Full intensity, in ten-thousandths: grey levels run from `0` (black) to
/// `LEVEL_MAX` (white).
pub const LEVEL_MAX: u64 = 10000;

/// Distances are given in hundredths of a unit.
pub const DISTANCE_SCALE: u64 = 100;

/// The near end of the standard colouring: the centre.
pub const STANDARD_NEAR: u64 = 0;
/// The far end of the standard colouring: distance `450`.
pub const STANDARD_FAR: u64 = 45000;
/// The grey of the standard colouring at the centre: `0.38`.
pub const STANDARD_NEAR_LEVEL: u64 = 3800;
/// The grey of the standard colouring at distance `450`: `0.9`.
pub const STANDARD_FAR_LEVEL: u64 = 9000;

/// A linear map from distances from the centre to grey levels.
///
/// A distance `near` gets the level `near_level`, a distance `far` the level
/// `far_level`, and distances in between lie on the line through those two;
/// the map rises or falls with distance as `far_level` lies above or below
/// `near_level`. Distances outside `[near, far]` are held at its ends, so that
/// every level stays between the two calibrated ones and so within
/// `[0, LEVEL_MAX]`.
#[derive(Debug, Clone, Copy, PartialEq, Eq, Structural)]
pub struct ColorMap {
    pub near: u64,
    pub far: u64,
    pub near_level: u64,
    pub far_level: u64,
}

/// `x` held within `[lo, hi]`.
pub open spec fn clamp_spec(x: int, lo: int, hi: int) -> int {
    if x < lo {
        lo
    } else if x > hi {
        hi
    } else {
        x
    }
}

impl ColorMap {
    /// A map with a non-empty range of distances and levels no brighter than
    /// white.
    pub open spec fn wf(&self) -> bool {
        self.near < self.far && self.near_level <= LEVEL_MAX && self.far_level <= LEVEL_MAX
    }

    /// The grey level of a point `distance` away from the centre; the line
    /// is followed with whole ten-thousandths, rounded towards `near_level`.
    pub open spec fn level_spec(&self, distance: int) -> int {
        let span = self.far - self.near;
        let along = clamp_spec(distance, self.near as int, self.far as int) - self.near;
        if self.near_level <= self.far_level {
            self.near_level + along * (self.far_level - self.near_level) / span
        } else {
            self.near_level - along * (self.near_level - self.far_level) / span
        }
    }

    /// Checks a calibration: a level above white is out of range, an empty or
    /// reversed range of distances is refused.
    pub fn new(near: u64, far: u64, near_level: u64, far_level: u64) -> (r: Result<
        ColorMap,
        CurveError,
    >)
        ensures
            r is Ok <==> (near < far && near_level <= LEVEL_MAX && far_level <= LEVEL_MAX),
            r is Ok ==> r->Ok_0 == (ColorMap { near, far, near_level, far_level }),
            r is Ok ==> r->Ok_0.wf(),
            r is Err ==> (r->Err_0 == CurveError::OutOfRangeColor <==> (near_level > LEVEL_MAX
                || far_level > LEVEL_MAX)),
            r is Err ==> (r->Err_0 == CurveError::OutOfRangeColor || r->Err_0
                == CurveError::InvalidParameter),
    {
        if near_level > LEVEL_MAX || far_level > LEVEL_MAX {
            Err(CurveError::OutOfRangeColor)
        } else if near >= far {
            Err(CurveError::InvalidParameter)
        } else {
            Ok(ColorMap { near, far, near_level, far_level })
        }
    }

    /// The standard colouring: from grey `0.38` at the centre to grey `0.9`
    /// at distance `450`.
    pub fn standard() -> (r: ColorMap)
        ensures
            r == (ColorMap {
                near: STANDARD_NEAR,
                far: STANDARD_FAR,
                near_level: STANDARD_NEAR_LEVEL,
                far_level: STANDARD_FAR_LEVEL,
            }),
            r.wf(),
    {
        ColorMap {
            near: STANDARD_NEAR,
            far: STANDARD_FAR,
            near_level: STANDARD_NEAR_LEVEL,
            far_level: STANDARD_FAR_LEVEL,
        }
    }

    /// The grey level of a point `distance` hundredths away from the centre.
    /// It depends on the distance alone, never on the direction of the point.
    pub fn intensity(&self, distance: u64) -> (r: u64)
        requires
            self.wf(),
        ensures
            r == self.level_spec(distance as int),
            r <= LEVEL_MAX,
    {
        let d = if distance < self.near {
            self.near
        } else if distance > self.far {
            self.far
        } else {
            distance
        };
        let span = self.far - self.near;
        let along = d - self.near;
        proof {
            lemma_level_between(*self, distance as int);
        }
        if self.near_level <= self.far_level {
            let rise = self.far_level - self.near_level;
            assert(along as int * rise <= span as int * LEVEL_MAX) by (nonlinear_arith)
                requires
                    along <= span,
                    rise <= LEVEL_MAX,
            ;
            self.near_level + ((along as u128 * rise as u128) / span as u128) as u64
        } else {
            let fall = self.near_level - self.far_level;
            assert(along as int * fall <= span as int * LEVEL_MAX) by (nonlinear_arith)
                requires
                    along <= span,
                    fall <= LEVEL_MAX,
            ;
            self.near_level - ((along as u128 * fall as u128) / span as u128) as u64
        }
    }
}

/// `x * k / span` for `0 <= x <= span` lies within `[0, k]`.
proof fn lemma_scaled_bound(x: int, k: int, span: int)
    requires
        0 <= x <= span,
        0 < span,
        0 <= k,
    ensures
        0 <= x * k / span <= k,
{
    assert(0 <= x * k <= k * span) by (nonlinear_arith)
        requires
            0 <= x <= span,
            0 <= k,
    ;
    lemma_div_is_ordered(0, x * k, span);
    lemma_div_is_ordered(x * k, k * span, span);
    vstd::arithmetic::div_mod::lemma_div_by_multiple(k, span);
}

/// Every level lies between the two calibrated levels.
pub proof fn lemma_level_between(m: ColorMap, distance: int)
    requires
        m.wf(),
    ensures
        m.near_level <= m.far_level ==> m.near_level <= m.level_spec(distance) <= m.far_level,
        m.near_level > m.far_level ==> m.far_level <= m.level_spec(distance) <= m.near_level,
        0 <= m.level_spec(distance) <= LEVEL_MAX,
{
    let span = m.far - m.near;
    let along = clamp_spec(distance, m.near as int, m.far as int) - m.near;
    if m.near_level <= m.far_level {
        lemma_scaled_bound(along, m.far_level - m.near_level, span);
    } else {
        lemma_scaled_bound(along, m.near_level - m.far_level, span);
    }
}

/// The colouring is monotonic in distance: a point further out is never
/// darker when the map rises, never brighter when it falls.
pub proof fn lemma_intensity_monotonic(m: ColorMap, d1: int, d2: int)
    requires
        m.wf(),
        d1 <= d2,
    ensures
        m.near_level <= m.far_level ==> m.level_spec(d1) <= m.level_spec(d2),
        m.near_level >= m.far_level ==> m.level_spec(d1) >= m.level_spec(d2),
{
    let span = m.far - m.near;
    let a1 = clamp_spec(d1, m.near as int, m.far as int) - m.near;
    let a2 = clamp_spec(d2, m.near as int, m.far as int) - m.near;
    assert(a1 <= a2);
    if m.near_level <= m.far_level {
        let k = m.far_level - m.near_level;
        assert(a1 * k <= a2 * k) by (nonlinear_arith)
            requires
                a1 <= a2,
                0 <= k,
        ;
        lemma_div_is_ordered(a1 * k, a2 * k, span);
        if k == 0 {
            assert(a1 * k == 0 && a2 * k == 0) by (nonlinear_arith)
                requires
                    k == 0,
            ;
        }
    } else {
        let k = m.near_level - m.far_level;
        assert(a1 * k <= a2 * k) by (nonlinear_arith)
            requires
                a1 <= a2,
                0 <= k,
        ;
        lemma_div_is_ordered(a1 * k, a2 * k, span);
    }
}

} // verus!
