use vstd::prelude::*;

verus! {

/// Why a set of curve parameters or a colouring was refused.
#[derive(Debug, Clone, Copy, PartialEq, Eq, Structural)]
pub enum CurveError {
    /// The radius is zero or negative, or a range of distances is empty.
    InvalidParameter,
    /// A grey level lies above full intensity.
    OutOfRangeColor,
}

/// Which of the two curves of a rosette: the inner one stretches its angle
/// by `d`, the outer one does not stretch it.
#[derive(Debug, Clone, Copy, PartialEq, Eq, Structural)]
pub enum LineKind {
    Inner,
    Outer,
}

/// The parameters of a rosette.
///
/// `n` (lobes) and `d` (angular stretch of the inner curve) are held in
/// eighths, so that `n_eighths == 32` stands for `n = 4.0` and one animation
/// step adds one to `d_eighths`; `radius` is in whole units.
#[derive(Debug, Clone, Copy, PartialEq, Eq, Structural)]
pub struct Params {
    pub n_eighths: i64,
    pub d_eighths: i64,
    pub radius: i64,
}

impl Params {
    /// A set of parameters that curves can be drawn from.
    pub open spec fn wf(&self) -> bool {
        self.radius > 0
    }

    /// The angular stretch of a curve kind, in eighths.
    pub open spec fn factor_spec(&self, kind: LineKind) -> int {
        match kind {
            LineKind::Inner => self.d_eighths as int,
            LineKind::Outer => 8,
        }
    }

    /// Checks the parameters: a radius that is not positive is refused.
    pub fn new(n_eighths: i64, d_eighths: i64, radius: i64) -> (r: Result<Params, CurveError>)
        ensures
            radius > 0 <==> r is Ok,
            r is Ok ==> r->Ok_0 == (Params { n_eighths, d_eighths, radius }),
            r is Ok ==> r->Ok_0.wf(),
            r is Err ==> r->Err_0 == CurveError::InvalidParameter,
    {
        if radius <= 0 {
            Err(CurveError::InvalidParameter)
        } else {
            Ok(Params { n_eighths, d_eighths, radius })
        }
    }

    /// The angular stretch of `kind`, in eighths: `d` for the inner curve,
    /// one for the outer curve.
    pub fn factor(&self, kind: LineKind) -> (r: i64)
        ensures
            r == self.factor_spec(kind),
    {
        match kind {
            LineKind::Inner => self.d_eighths,
            LineKind::Outer => 8,
        }
    }
}

} // verus!
