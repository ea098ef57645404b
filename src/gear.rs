use vstd::prelude::*;

verus! {

/// Why a gear or a rack description is refused.
#[derive(Debug, Clone, Copy, PartialEq, Eq, Structural)]
pub enum GeometryError {
    /// A tooth count or a size is not positive, or a gear's addendum is
    /// negative: no tooth pitch or placement could be computed from it.
    InvalidConfiguration,
}

/// An exact fraction `num / den`.
#[derive(Debug, Clone, Copy, PartialEq, Eq, Structural)]
pub struct Ratio {
    pub num: i64,
    pub den: i64,
}

impl Ratio {
    /// The denominator is positive.
    pub open spec fn wf(self) -> bool {
        self.den > 0
    }

    /// `self` stands for a smaller number than `o` (both well formed).
    pub open spec fn less_than(self, o: Ratio) -> bool {
        self.num * o.den < o.num * self.den
    }

    /// `self` is `o` multiplied by `p / q` (`q` positive).
    pub open spec fn is_scaled(self, o: Ratio, p: int, q: int) -> bool {
        self.num * o.den * q == o.num * self.den * p
    }
}

/// A circular gear.
#[derive(Debug, Clone, Copy, PartialEq, Eq, Structural)]
pub struct Gear {
    /// Radius of the pitch circle, where meshing gears touch.
    pub pitch_circle_radius: i32,
    /// Radial distance from the pitch circle to the tooth tips.
    pub addendum: i32,
    /// Number of teeth.
    pub teeth_num: i32,
}

impl Gear {
    /// A gear that can be measured: positive radius and tooth count, and an
    /// addendum that is not negative.
    pub open spec fn wf(self) -> bool {
        &&& self.pitch_circle_radius > 0
        &&& self.addendum >= 0
        &&& self.teeth_num > 0
    }

    /// Radius of the circle through the tooth tips.
    pub open spec fn spec_addendum_circle_radius(self) -> int {
        self.pitch_circle_radius + self.addendum
    }

    /// Circular pitch divided by pi: `2 * radius / teeth`.
    pub open spec fn spec_pitch(self) -> Ratio {
        Ratio { num: (2 * self.pitch_circle_radius) as i64, den: self.teeth_num as i64 }
    }

    /// Distance between the centres of `self` and `other`, less `correction`.
    pub open spec fn spec_center_distance(self, other: Gear, correction: int) -> int {
        self.pitch_circle_radius + other.pitch_circle_radius - correction
    }

    /// Builds a gear, refusing a radius or tooth count that is not positive
    /// and a negative addendum.
    pub fn new(pitch_circle_radius: i32, addendum: i32, teeth_num: i32) -> (r: Result<
        Gear,
        GeometryError,
    >)
        ensures
            match r {
                Ok(g) => g.wf() && g.pitch_circle_radius == pitch_circle_radius && g.addendum
                    == addendum && g.teeth_num == teeth_num,
                Err(e) => e == GeometryError::InvalidConfiguration,
            },
            r.is_ok() <==> (pitch_circle_radius > 0 && addendum >= 0 && teeth_num > 0),
    {
        if pitch_circle_radius <= 0 || addendum < 0 || teeth_num <= 0 {
            Err(GeometryError::InvalidConfiguration)
        } else {
            Ok(Gear { pitch_circle_radius, addendum, teeth_num })
        }
    }

    /// Radius of the circle through the tooth tips: pitch radius plus
    /// addendum.
    pub fn addendum_circle_radius(&self) -> (r: i64)
        ensures
            r == self.spec_addendum_circle_radius(),
    {
        self.pitch_circle_radius as i64 + self.addendum as i64
    }

    /// Circular pitch, the arc of the pitch circle taken by one tooth and
    /// one gap, as a multiple of pi: the arc is `pi * num / den`.
    pub fn pitch(&self) -> (r: Ratio)
        requires
            self.wf(),
        ensures
            r == self.spec_pitch(),
            r.wf(),
    {
        Ratio { num: 2 * (self.pitch_circle_radius as i64), den: self.teeth_num as i64 }
    }

    /// Distance between the centres of two meshing gears: the sum of their
    /// pitch radii, less a `correction` that the caller chooses for looks.
    pub fn center_distance(&self, other: &Gear, correction: i32) -> (r: i64)
        ensures
            r == self.spec_center_distance(*other, correction as int),
    {
        self.pitch_circle_radius as i64 + other.pitch_circle_radius as i64 - correction as i64
    }
}

/// A straight rack of teeth.
#[derive(Debug, Clone, Copy, PartialEq, Eq, Structural)]
pub struct Rack {
    /// Length of the toothed side.
    pub width: i32,
    /// Extent across the teeth.
    pub height: i32,
    /// Depth of the teeth beyond the pitch line.
    pub addendum: i32,
    /// Number of teeth along the width.
    pub teeth_num: i32,
}

impl Rack {
    /// A rack that can be measured: positive width, height and tooth count.
    pub open spec fn wf(self) -> bool {
        &&& self.width > 0
        &&& self.height > 0
        &&& self.teeth_num > 0
    }

    /// Linear pitch: `width / teeth`.
    pub open spec fn spec_pitch(self) -> Ratio {
        Ratio { num: self.width as i64, den: self.teeth_num as i64 }
    }

    /// Builds a rack, refusing a width, height or tooth count that is not
    /// positive.
    pub fn new(width: i32, height: i32, addendum: i32, teeth_num: i32) -> (r: Result<
        Rack,
        GeometryError,
    >)
        ensures
            match r {
                Ok(k) => k.wf() && k.width == width && k.height == height && k.addendum
                    == addendum && k.teeth_num == teeth_num,
                Err(e) => e == GeometryError::InvalidConfiguration,
            },
            r.is_ok() <==> (width > 0 && height > 0 && teeth_num > 0),
    {
        if width <= 0 || height <= 0 || teeth_num <= 0 {
            Err(GeometryError::InvalidConfiguration)
        } else {
            Ok(Rack { width, height, addendum, teeth_num })
        }
    }

    /// Linear pitch, the length of the rack taken by one tooth and one gap.
    pub fn pitch(&self) -> (r: Ratio)
        requires
            self.wf(),
        ensures
            r == self.spec_pitch(),
            r.wf(),
    {
        Ratio { num: self.width as i64, den: self.teeth_num as i64 }
    }
}

/// The tip circle of a gear is never inside its pitch circle, and the two
/// coincide exactly when the addendum is zero.
pub proof fn lemma_addendum_circle_outside_pitch_circle(g: Gear)
    requires
        g.wf(),
    ensures
        g.spec_addendum_circle_radius() >= g.pitch_circle_radius,
        g.spec_addendum_circle_radius() == g.pitch_circle_radius <==> g.addendum == 0,
{
}

/// For a fixed pitch radius, a gear with more teeth has a strictly smaller
/// circular pitch.
pub proof fn lemma_gear_pitch_decreasing(a: Gear, b: Gear)
    requires
        a.wf(),
        b.wf(),
        a.pitch_circle_radius == b.pitch_circle_radius,
        a.teeth_num < b.teeth_num,
    ensures
        b.spec_pitch().less_than(a.spec_pitch()),
{
    let r = 2 * a.pitch_circle_radius as int;
    let (m, n) = (a.teeth_num as int, b.teeth_num as int);
    assert(r * m < r * n) by (nonlinear_arith)
        requires
            r > 0,
            m < n,
    ;
}

/// For a fixed width, a rack with more teeth has a strictly smaller linear
/// pitch.
pub proof fn lemma_rack_pitch_decreasing(a: Rack, b: Rack)
    requires
        a.wf(),
        b.wf(),
        a.width == b.width,
        a.teeth_num < b.teeth_num,
    ensures
        b.spec_pitch().less_than(a.spec_pitch()),
{
    let w = a.width as int;
    let (m, n) = (a.teeth_num as int, b.teeth_num as int);
    assert(w * m < w * n) by (nonlinear_arith)
        requires
            w > 0,
            m < n,
    ;
}

/// Scaling a gear's pitch radius by `p / q` scales its circular pitch by
/// `p / q` when the tooth count is kept.
pub proof fn lemma_gear_pitch_scales(a: Gear, b: Gear, p: int, q: int)
    requires
        a.wf(),
        b.wf(),
        p > 0,
        q > 0,
        b.pitch_circle_radius * q == a.pitch_circle_radius * p,
        a.teeth_num == b.teeth_num,
    ensures
        b.spec_pitch().is_scaled(a.spec_pitch(), p, q),
{
    let (ra, rb) = (a.pitch_circle_radius as int, b.pitch_circle_radius as int);
    let n = a.teeth_num as int;
    assert((2 * rb) * n * q == (2 * ra) * n * p) by (nonlinear_arith)
        requires
            rb * q == ra * p,
    ;
}

/// Scaling a rack's width by `p / q` scales its linear pitch by `p / q`
/// when the tooth count is kept.
pub proof fn lemma_rack_pitch_scales(a: Rack, b: Rack, p: int, q: int)
    requires
        a.wf(),
        b.wf(),
        p > 0,
        q > 0,
        b.width * q == a.width * p,
        a.teeth_num == b.teeth_num,
    ensures
        b.spec_pitch().is_scaled(a.spec_pitch(), p, q),
{
    let (wa, wb) = (a.width as int, b.width as int);
    let n = a.teeth_num as int;
    assert(wb * n * q == wa * n * p) by (nonlinear_arith)
        requires
            wb * q == wa * p,
    ;
}

} // verus!
