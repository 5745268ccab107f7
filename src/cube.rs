//! Cube coordinates: three integers `q`, `r`, `s` that sum to zero.
use vstd::prelude::*;

verus! {

/// Whether a mathematical integer can be held in an `i64`.
pub open spec fn fits(v: int) -> bool {
    i64::MIN <= v <= i64::MAX
}

/// Absolute value of a mathematical integer.
pub open spec fn abs(v: int) -> int {
    if v < 0 {
        -v
    } else {
        v
    }
}

/// The ways a coordinate can be asked for that cannot exist.
#[derive(Debug, Clone, Copy, PartialEq, Eq, Structural)]
pub enum HexError {
    /// The three cube components do not sum to zero.
    InvariantViolation,
    /// An offset parity other than `Offset::EVEN` or `Offset::ODD`.
    InvalidParity,
}

/// A cube coordinate. A well-formed one has `q + r + s == 0`.
#[derive(Debug, Clone, Copy, PartialEq, Eq, Structural)]
pub struct Hex {
    pub q: i64,
    pub r: i64,
    pub s: i64,
}

/// One of the three cube axes.
#[derive(Debug, Clone, Copy, PartialEq, Eq, Structural)]
pub enum Axis {
    Q,
    R,
    S,
}

/// The unit step in direction `dir`, taken modulo six: southeast, northeast,
/// north, northwest, southwest, south.
pub open spec fn direction_of(dir: int) -> Hex {
    let k: int = dir % 6;
    if k == 0 {
        Hex { q: 1, r: 0, s: -1i64 }
    } else if k == 1 {
        Hex { q: 1, r: -1i64, s: 0 }
    } else if k == 2 {
        Hex { q: 0, r: -1i64, s: 1 }
    } else if k == 3 {
        Hex { q: -1i64, r: 0, s: 1 }
    } else if k == 4 {
        Hex { q: -1i64, r: 1, s: 0 }
    } else {
        Hex { q: 0, r: 1, s: -1i64 }
    }
}

/// The axis that rounding recomputes from the other two, given which rounding
/// errors are strictly larger than which: `q` when its error beats both others,
/// else `r` when its error beats that of `s`, else `s`.
pub open spec fn axis_to_correct(q_over_r: bool, q_over_s: bool, r_over_s: bool) -> Axis {
    if q_over_r && q_over_s {
        Axis::Q
    } else if r_over_s {
        Axis::R
    } else {
        Axis::S
    }
}

impl Hex {
    /// The cube invariant.
    pub open spec fn wf(self) -> bool {
        self.q + self.r + self.s == 0
    }

    /// No component is `i64::MIN`, so every component can be negated.
    pub open spec fn negatable(self) -> bool {
        self.q != i64::MIN && self.r != i64::MIN && self.s != i64::MIN
    }

    pub open spec fn can_add(self, o: Hex) -> bool {
        fits(self.q + o.q) && fits(self.r + o.r) && fits(self.s + o.s)
    }

    pub open spec fn plus(self, o: Hex) -> Hex {
        Hex { q: (self.q + o.q) as i64, r: (self.r + o.r) as i64, s: (self.s + o.s) as i64 }
    }

    pub open spec fn can_subtract(self, o: Hex) -> bool {
        fits(self.q - o.q) && fits(self.r - o.r) && fits(self.s - o.s)
    }

    pub open spec fn minus(self, o: Hex) -> Hex {
        Hex { q: (self.q - o.q) as i64, r: (self.r - o.r) as i64, s: (self.s - o.s) as i64 }
    }

    pub open spec fn can_scale(self, k: int) -> bool {
        fits(self.q * k) && fits(self.r * k) && fits(self.s * k)
    }

    pub open spec fn scaled(self, k: int) -> Hex {
        Hex { q: (self.q * k) as i64, r: (self.r * k) as i64, s: (self.s * k) as i64 }
    }

    /// Sum of the absolute values of the components.
    pub open spec fn norm(self) -> int {
        abs(self.q as int) + abs(self.r as int) + abs(self.s as int)
    }

    /// Number of steps from the origin.
    pub open spec fn dist_origin(self) -> int {
        self.norm() / 2
    }

    /// Number of steps between two coordinates.
    pub open spec fn dist(self, o: Hex) -> int {
        self.minus(o).dist_origin()
    }

    pub open spec fn rotated_left(self) -> Hex {
        Hex { q: -self.s as i64, r: -self.q as i64, s: -self.r as i64 }
    }

    pub open spec fn rotated_right(self) -> Hex {
        Hex { q: -self.r as i64, r: -self.s as i64, s: -self.q as i64 }
    }

    /// A coordinate from its three components, which must sum to zero.
    pub fn new(q: i64, r: i64, s: i64) -> (h: Hex)
        requires
            q + r + s == 0,
        ensures
            h == (Hex { q, r, s }),
            h.wf(),
    {
        Hex::build(q, r, s)
    }

    /// A coordinate from its three components, or `InvariantViolation` when
    /// they do not sum to zero.
    pub fn try_new(q: i64, r: i64, s: i64) -> (res: Result<Hex, HexError>)
        ensures
            q + r + s == 0 <==> res is Ok,
            res is Ok ==> res->Ok_0 == (Hex { q, r, s }),
            res is Err ==> res->Err_0 == HexError::InvariantViolation,
    {
        let total: i128 = q as i128 + r as i128 + s as i128;
        if total == 0 {
            Ok(Hex::build(q, r, s))
        } else {
            Err(HexError::InvariantViolation)
        }
    }

    /// A coordinate from its axial form: `s` is derived as `-q - r`.
    pub fn axial(q: i64, r: i64) -> (h: Hex)
        requires
            fits(-q - r),
        ensures
            h == (Hex { q, r, s: (-q - r) as i64 }),
            h.wf(),
    {
        let s: i64 = if q != i64::MIN {
            -q - r
        } else {
            -r - q
        };
        Hex::build(q, r, s)
    }

    pub fn build(q: i64, r: i64, s: i64) -> (h: Hex)
        requires
            q + r + s == 0,
        ensures
            h == (Hex { q, r, s }),
            h.wf(),
    {
        Hex { q, r, s }
    }

    /// Component-wise sum.
    pub fn add(&self, hex: &Hex) -> (h: Hex)
        requires
            self.wf(),
            hex.wf(),
            self.can_add(*hex),
        ensures
            h == self.plus(*hex),
            h.wf(),
    {
        Hex::build(self.q + hex.q, self.r + hex.r, self.s + hex.s)
    }

    /// Component-wise difference.
    pub fn subtract(&self, hex: &Hex) -> (h: Hex)
        requires
            self.wf(),
            hex.wf(),
            self.can_subtract(*hex),
        ensures
            h == self.minus(*hex),
            h.wf(),
    {
        Hex::build(self.q - hex.q, self.r - hex.r, self.s - hex.s)
    }

    /// Every component multiplied by `k`.
    pub fn multiply(&self, k: i64) -> (h: Hex)
        requires
            self.wf(),
            self.can_scale(k as int),
        ensures
            h == self.scaled(k as int),
            h.wf(),
    {
        proof {
            assert(self.q * k + self.r * k + self.s * k == (self.q + self.r + self.s) * k)
                by (nonlinear_arith);
        }
        Hex::build(self.q * k, self.r * k, self.s * k)
    }

    /// Number of steps from the origin: half the sum of the absolute values
    /// of the components, which is even for a well-formed coordinate.
    pub fn distance_origin(&self) -> (d: i64)
        requires
            self.wf(),
            fits(self.norm()),
        ensures
            d == self.dist_origin(),
            2 * d == self.norm(),
    {
        proof {
            lemma_norm_even(*self);
        }
        (abs_of(self.q) + abs_of(self.r) + abs_of(self.s)) / 2
    }

    /// Number of steps between `self` and `hex`.
    pub fn distance(&self, hex: &Hex) -> (d: i64)
        requires
            self.wf(),
            hex.wf(),
            self.can_subtract(*hex),
            fits(self.minus(*hex).norm()),
        ensures
            d == self.dist(*hex),
    {
        self.subtract(hex).distance_origin()
    }

    /// The unit step in direction `dir`; any integer is taken modulo six.
    pub fn direction(dir: isize) -> (h: Hex)
        ensures
            h == direction_of(dir as int),
            h.wf(),
    {
        let k: isize = (6 + (dir % 6)) % 6;
        if k == 0 {
            Hex::build(1, 0, -1)
        } else if k == 1 {
            Hex::build(1, -1, 0)
        } else if k == 2 {
            Hex::build(0, -1, 1)
        } else if k == 3 {
            Hex::build(-1, 0, 1)
        } else if k == 4 {
            Hex::build(-1, 1, 0)
        } else {
            Hex::build(0, 1, -1)
        }
    }

    /// The adjacent coordinate in direction `dir`.
    pub fn neighbor(&self, dir: isize) -> (h: Hex)
        requires
            self.wf(),
            self.can_add(direction_of(dir as int)),
        ensures
            h == self.plus(direction_of(dir as int)),
            h.wf(),
    {
        Hex::direction(dir).add(self)
    }

    /// Rotation by sixty degrees about the origin: `(-s, -q, -r)`.
    pub fn rotate_left(&self) -> (h: Hex)
        requires
            self.wf(),
            self.negatable(),
        ensures
            h == self.rotated_left(),
            h.wf(),
    {
        Hex::build(-self.s, -self.q, -self.r)
    }

    /// Rotation by sixty degrees about the origin: `(-r, -s, -q)`.
    pub fn rotate_right(&self) -> (h: Hex)
        requires
            self.wf(),
            self.negatable(),
        ensures
            h == self.rotated_right(),
            h.wf(),
    {
        Hex::build(-self.r, -self.s, -self.q)
    }

    /// The coordinate that rounding a fractional coordinate yields, from its
    /// three components rounded one by one and the comparisons of their
    /// rounding errors (`q_over_r`: the error of `q` is strictly larger than
    /// that of `r`, and so on). The axis chosen by `axis_to_correct` is
    /// recomputed from the other two; `None` when that value overflows.
    pub fn from_rounded(q: i64, r: i64, s: i64, q_over_r: bool, q_over_s: bool, r_over_s: bool)
        -> (res: Option<Hex>)
        ensures
            axis_to_correct(q_over_r, q_over_s, r_over_s) == Axis::Q ==> (
                res == if fits(-r - s) { Some(Hex { q: (-r - s) as i64, r, s }) } else { None }),
            axis_to_correct(q_over_r, q_over_s, r_over_s) == Axis::R ==> (
                res == if fits(-q - s) { Some(Hex { q, r: (-q - s) as i64, s }) } else { None }),
            axis_to_correct(q_over_r, q_over_s, r_over_s) == Axis::S ==> (
                res == if fits(-q - r) { Some(Hex { q, r, s: (-q - r) as i64 }) } else { None }),
            res is Some ==> res->Some_0.wf(),
            q + r + s == 0 ==> res == Some(Hex { q, r, s }),
    {
        if q_over_r && q_over_s {
            match negated_sum(r, s) {
                Some(v) => Some(Hex::build(v, r, s)),
                None => None,
            }
        } else if r_over_s {
            match negated_sum(q, s) {
                Some(v) => Some(Hex::build(q, v, s)),
                None => None,
            }
        } else {
            match negated_sum(q, r) {
                Some(v) => Some(Hex::build(q, r, v)),
                None => None,
            }
        }
    }
}

/// `-a - b`, when it fits in an `i64`.
fn negated_sum(a: i64, b: i64) -> (res: Option<i64>)
    ensures
        res == if fits(-a - b) { Some((-a - b) as i64) } else { None::<i64> },
{
    let total: i128 = -(a as i128) - (b as i128);
    if i64::MIN as i128 <= total && total <= i64::MAX as i128 {
        Some(total as i64)
    } else {
        None
    }
}

fn abs_of(x: i64) -> (r: i64)
    requires
        x != i64::MIN,
    ensures
        r == abs(x as int),
{
    if x < 0 {
        -x
    } else {
        x
    }
}

proof fn lemma_norm_even(h: Hex)
    requires
        h.wf(),
    ensures
        h.norm() % 2 == 0,
{
}

/// Adding `b` and then subtracting it gives back `a`.
pub proof fn lemma_add_then_subtract(a: Hex, b: Hex)
    requires
        a.wf(),
        b.wf(),
        a.can_add(b),
    ensures
        a.plus(b).wf(),
        a.plus(b).can_subtract(b),
        a.plus(b).minus(b) == a,
{
}

/// Rotating left and then right, or right and then left, gives back `a`.
pub proof fn lemma_rotations_cancel(a: Hex)
    requires
        a.wf(),
        a.negatable(),
    ensures
        a.rotated_left().wf(),
        a.rotated_left().negatable(),
        a.rotated_left().rotated_right() == a,
        a.rotated_right().wf(),
        a.rotated_right().negatable(),
        a.rotated_right().rotated_left() == a,
{
}

/// A direction index means the same as its floor remainder by six, and as
/// itself shifted by any multiple of six.
pub proof fn lemma_direction_periodic(n: int, k: int)
    ensures
        direction_of(n) == direction_of(((n % 6) + 6) % 6),
        direction_of(n) == direction_of(n + 6 * k),
{
    assert((n + 6 * k) % 6 == n % 6) by (nonlinear_arith);
}

} // verus!
