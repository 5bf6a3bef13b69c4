use vstd::prelude::*;
use vstd::arithmetic::div_mod::{
    lemma_fundamental_div_mod,
    lemma_mod_multiples_vanish,
    lemma_mul_mod_noop,
    lemma_mul_mod_noop_general,
};
use crate::params::{LineKind, Params};

verus! {

/// One full turn, in sixty-fourths of a degree.
pub const TURN: u64 = 23040;

/// The two angles that place a rosette point, each reduced to one turn and
/// given in sixty-fourths of a degree: `sweep` is the direction of the point
/// (`k = angle * factor`), `lobe` the argument of its radius (`k * n`).
///
/// The point itself is `(sin(sweep) * r, cos(sweep) * r)` with
/// `r = radius * sin(lobe)`, so two equal phases give the same point, and the
/// distance of the point from the centre is `radius * |sin(lobe)|`.
#[derive(Debug, Clone, Copy, PartialEq, Eq, Structural)]
pub struct Phase {
    pub sweep: u64,
    pub lobe: u64,
}

/// Whether `y` is a whole multiple of `g`.
pub open spec fn divides(g: int, y: int) -> bool {
    exists|k: int| y == #[trigger] (g * k)
}

/// Greatest common divisor, by Euclid's rule.
pub open spec fn gcd_spec(a: nat, b: nat) -> nat
    decreases b,
{
    if b == 0 {
        a
    } else {
        gcd_spec(b, a % b)
    }
}

/// `x * y` degrees, with `y` in eighths, in sixty-fourths of a degree and
/// reduced to one turn.
pub open spec fn turn_units(x: int, y: int) -> int {
    (x * y) % (TURN as int)
}

/// The direction of the point at `angle` degrees on the curve `kind`.
pub open spec fn sweep_spec(angle: int, kind: LineKind, p: Params) -> int {
    turn_units(angle, p.factor_spec(kind) * 8)
}

/// The argument of the radius of the point at `angle` degrees on the curve
/// `kind`.
pub open spec fn lobe_spec(angle: int, kind: LineKind, p: Params) -> int {
    turn_units(angle, p.factor_spec(kind) * p.n_eighths)
}

/// The phase of the point at `angle` degrees on the curve `kind`.
pub open spec fn phase_spec(angle: int, kind: LineKind, p: Params) -> Phase {
    Phase { sweep: sweep_spec(angle, kind, p) as u64, lobe: lobe_spec(angle, kind, p) as u64 }
}

/// How far the direction of a point turns for each degree of `angle`, in
/// sixty-fourths of a degree and reduced to one turn.
pub open spec fn sweep_step(kind: LineKind, p: Params) -> nat {
    turn_units(p.factor_spec(kind), 8) as nat
}

/// How far the argument of the radius turns for each degree of `angle`.
pub open spec fn lobe_step(kind: LineKind, p: Params) -> nat {
    turn_units(p.factor_spec(kind), p.n_eighths as int) as nat
}

/// The common divisor of a turn and of both steps.
pub open spec fn closing_divisor(kind: LineKind, p: Params) -> nat {
    gcd_spec(TURN as nat, gcd_spec(sweep_step(kind, p), lobe_step(kind, p)))
}

/// The number of degrees of `angle` after which the curve `kind` closes.
pub open spec fn period_spec(kind: LineKind, p: Params) -> int {
    TURN as int / closing_divisor(kind, p) as int
}

/// The greatest common divisor divides both of its arguments, and is positive
/// where one of them is.
pub proof fn lemma_gcd_divides(a: nat, b: nat)
    ensures
        divides(gcd_spec(a, b) as int, a as int),
        divides(gcd_spec(a, b) as int, b as int),
        a > 0 || b > 0 ==> gcd_spec(a, b) > 0,
    decreases b,
{
    let g = gcd_spec(a, b) as int;
    if b == 0 {
        assert(a as int == g * 1);
        assert(b as int == g * 0);
    } else {
        lemma_gcd_divides(b, a % b);
        let s = choose|s: int| b as int == #[trigger] (g * s);
        let t = choose|t: int| (a % b) as int == #[trigger] (g * t);
        let q = (a / b) as int;
        lemma_fundamental_div_mod(a as int, b as int);
        assert(a as int == g * (q * s + t)) by (nonlinear_arith)
            requires
                a as int == b * q + (a % b) as int,
                b as int == g * s,
                (a % b) as int == g * t,
        ;
    }
}

/// A divisor of a divisor of `y` divides `y`.
proof fn lemma_divides_trans(g: int, x: int, y: int)
    requires
        divides(g, x),
        divides(x, y),
    ensures
        divides(g, y),
{
    let s = choose|s: int| x == #[trigger] (g * s);
    let t = choose|t: int| y == #[trigger] (x * t);
    assert(y == g * (s * t)) by (nonlinear_arith)
        requires
            x == g * s,
            y == x * t,
    ;
}

/// Turning by a step that the closing divisor divides, a whole period of
/// times, ends where it started.
proof fn lemma_full_period(angle: int, c: int, g: int)
    requires
        g > 0,
        divides(g, TURN as int),
        divides(g, c % (TURN as int)),
    ensures
        turn_units(angle + TURN as int / g, c) == turn_units(angle, c),
{
    let t = TURN as int;
    let p = t / g;
    let k = choose|k: int| t == #[trigger] (g * k);
    assert(p == k) by (nonlinear_arith)
        requires
            t == g * k,
            p == t / g,
            g > 0,
    ;
    let s = choose|s: int| c % t == #[trigger] (g * s);
    let q = c / t;
    lemma_fundamental_div_mod(c, t);
    assert((angle + p) * c == t * (p * q + s) + angle * c) by (nonlinear_arith)
        requires
            c == t * q + c % t,
            c % t == g * s,
            t == g * p,
    ;
    lemma_mod_multiples_vanish(p * q + s, angle * c, t);
}

/// A rosette closes: moving the angle on by one period gives the same phase,
/// and so the same point, on either curve and for every angle.
pub proof fn lemma_phase_periodic(angle: int, kind: LineKind, p: Params)
    ensures
        period_spec(kind, p) >= 1,
        phase_spec(angle + period_spec(kind, p), kind, p) == phase_spec(angle, kind, p),
{
    let t = TURN as int;
    let a = sweep_step(kind, p);
    let b = lobe_step(kind, p);
    let h = gcd_spec(a, b);
    let g = closing_divisor(kind, p);
    let f = p.factor_spec(kind);
    lemma_gcd_divides(a, b);
    lemma_gcd_divides(TURN as nat, h);
    lemma_divides_trans(g as int, h as int, a as int);
    lemma_divides_trans(g as int, h as int, b as int);
    lemma_mul_mod_noop_general(f, 8, t);
    lemma_mul_mod_noop_general(f, p.n_eighths as int, t);
    assert((f * 8) % t == turn_units(f, 8) % t) by {
        vstd::arithmetic::div_mod::lemma_mod_mod(f * 8, t, 1);
    }
    lemma_full_period(angle, f * 8, g as int);
    lemma_full_period(angle, f * p.n_eighths, g as int);
    let k = choose|k: int| t == #[trigger] (g * k);
    assert(period_spec(kind, p) == k && k >= 1) by (nonlinear_arith)
        requires
            t == g * k,
            g > 0,
            t == 23040,
            period_spec(kind, p) == t / (g as int),
    ;
}

/// `x` reduced to one turn.
fn wrap(x: i64) -> (r: u64)
    ensures
        r == (x as int) % (TURN as int),
        r < TURN,
{
    if x >= 0 {
        (x as u64) % TURN
    } else {
        let y: u64 = (-(x + 1)) as u64;
        let m: u64 = y % TURN;
        proof {
            let t = TURN as int;
            lemma_fundamental_div_mod(y as int, t);
            lemma_mod_multiples_vanish(-(y as int / t) - 1, t - 1 - m, t);
            assert(x as int == t * (-(y as int / t) - 1) + (t - 1 - m));
            vstd::arithmetic::div_mod::lemma_small_mod((t - 1 - m) as nat, t as nat);
        }
        TURN - 1 - m
    }
}

/// The product of two reduced angles, reduced to one turn.
fn mul_turn(x: u64, y: u64) -> (r: u64)
    requires
        x < TURN,
        y < TURN,
    ensures
        r == (x * y) % (TURN as int),
{
    assert(x * y < TURN * TURN) by (nonlinear_arith)
        requires
            x < TURN,
            y < TURN,
    ;
    (x * y) % TURN
}

/// The greatest common divisor of `a` and `b`.
pub fn gcd(a: u64, b: u64) -> (r: u64)
    ensures
        r == gcd_spec(a as nat, b as nat),
{
    let mut x = a;
    let mut y = b;
    while y != 0
        invariant
            gcd_spec(x as nat, y as nat) == gcd_spec(a as nat, b as nat),
        decreases y,
    {
        let z = x % y;
        x = y;
        y = z;
    }
    x
}

impl Phase {
    /// The phase of the point at `angle` degrees on the curve `kind`.
    pub fn at(angle: i64, kind: LineKind, params: &Params) -> (r: Phase)
        ensures
            r == phase_spec(angle as int, kind, *params),
    {
        let f = params.factor(kind);
        let fw = wrap(f);
        let a = wrap(angle);
        let cs = mul_turn(fw, 8);
        let cl = mul_turn(fw, wrap(params.n_eighths));
        let sweep = mul_turn(a, cs);
        let lobe = mul_turn(a, cl);
        proof {
            let t = TURN as int;
            lemma_mul_mod_noop_general(f as int, 8, t);
            lemma_mul_mod_noop(f as int, params.n_eighths as int, t);
            lemma_mul_mod_noop_general(angle as int, f as int * 8, t);
            lemma_mul_mod_noop_general(angle as int, f as int * params.n_eighths, t);
        }
        Phase { sweep, lobe }
    }

    /// The number of degrees of angle after which the curve `kind` closes:
    /// `360` for the outer curve of a whole `n`, more where `d` or `n` has a
    /// fraction.
    pub fn period(kind: LineKind, params: &Params) -> (r: u64)
        ensures
            r == period_spec(kind, *params),
            r >= 1,
    {
        let fw = wrap(params.factor(kind));
        let a = mul_turn(fw, 8);
        let b = mul_turn(fw, wrap(params.n_eighths));
        proof {
            let t = TURN as int;
            let f = params.factor_spec(kind);
            lemma_mul_mod_noop_general(f, 8, t);
            lemma_mul_mod_noop(f, params.n_eighths as int, t);
            lemma_phase_periodic(0, kind, *params);
            lemma_gcd_divides(TURN as nat, gcd_spec(a as nat, b as nat));
        }
        TURN / gcd(TURN, gcd(a, b))
    }
}

} // verus!
