use vstd::prelude::*;

verus! {

/// A face of an axis-aligned box, named by its outward normal.
#[derive(Clone, Copy, Debug, PartialEq, Eq, Structural)]
pub enum Face {
    Right,
    Left,
    Forwards,
    Backwards,
    Up,
    Down,
}

/// Where a ray crosses the plane of one face: an order key and the face.
#[derive(Clone, Copy, Debug, PartialEq, Eq, Structural)]
pub struct FaceHit {
    pub t: i64,
    pub face: Face,
}

/// The two crossings of one axis, nearer first; on a tie `b` comes first.
pub open spec fn span_of(a: FaceHit, b: FaceHit) -> (FaceHit, FaceHit) {
    if a.t < b.t {
        (a, b)
    } else {
        (b, a)
    }
}

/// The farther of two crossings; on a tie `b`.
pub open spec fn farther(a: FaceHit, b: FaceHit) -> FaceHit {
    if a.t > b.t {
        a
    } else {
        b
    }
}

/// The nearer of two crossings; on a tie `b`.
pub open spec fn nearer(a: FaceHit, b: FaceHit) -> FaceHit {
    if a.t < b.t {
        a
    } else {
        b
    }
}

impl FaceHit {
    pub fn min_max(self, other: FaceHit) -> (r: (FaceHit, FaceHit))
        ensures
            r == span_of(self, other),
    {
        if self.t < other.t {
            (self, other)
        } else {
            (other, self)
        }
    }

    pub fn max(self, other: FaceHit) -> (r: FaceHit)
        ensures
            r == farther(self, other),
    {
        if self.t > other.t {
            self
        } else {
            other
        }
    }

    pub fn min(self, other: FaceHit) -> (r: FaceHit)
        ensures
            r == nearer(self, other),
    {
        if self.t < other.t {
            self
        } else {
            other
        }
    }
}

/// The slab method on a box. Each argument holds, for one axis, the crossing
/// keys of the positive face and of the negative face (x: right and left,
/// y: forwards and backwards, z: up and down). The ray is inside the box
/// between the last of the per-axis entries and the first of the per-axis
/// exits; the result is that entry and that exit.
pub fn possible_collisions(x: (i64, i64), y: (i64, i64), z: (i64, i64)) -> (r: (FaceHit, FaceHit))
    ensures
        ({
            let sx = span_of(FaceHit { t: x.0, face: Face::Right }, FaceHit { t: x.1, face: Face::Left });
            let sy = span_of(
                FaceHit { t: y.0, face: Face::Forwards },
                FaceHit { t: y.1, face: Face::Backwards },
            );
            let sz = span_of(FaceHit { t: z.0, face: Face::Up }, FaceHit { t: z.1, face: Face::Down });
            r == (farther(farther(sx.0, sy.0), sz.0), nearer(nearer(sx.1, sy.1), sz.1))
        }),
        r.0.t == max3(min2(x.0, x.1), min2(y.0, y.1), min2(z.0, z.1)),
        r.1.t == min3(max2(x.0, x.1), max2(y.0, y.1), max2(z.0, z.1)),
{
    let (min_tx, max_tx) = FaceHit { t: x.0, face: Face::Right }.min_max(
        FaceHit { t: x.1, face: Face::Left },
    );
    let (min_ty, max_ty) = FaceHit { t: y.0, face: Face::Forwards }.min_max(
        FaceHit { t: y.1, face: Face::Backwards },
    );
    let (min_tz, max_tz) = FaceHit { t: z.0, face: Face::Up }.min_max(
        FaceHit { t: z.1, face: Face::Down },
    );
    let collision_in = min_tx.max(min_ty).max(min_tz);
    let collision_out = max_tx.min(max_ty).min(max_tz);
    (collision_in, collision_out)
}

pub open spec fn min2(a: i64, b: i64) -> i64 {
    if a < b {
        a
    } else {
        b
    }
}

pub open spec fn max2(a: i64, b: i64) -> i64 {
    if a > b {
        a
    } else {
        b
    }
}

pub open spec fn min3(a: i64, b: i64, c: i64) -> i64 {
    min2(min2(a, b), c)
}

pub open spec fn max3(a: i64, b: i64, c: i64) -> i64 {
    max2(max2(a, b), c)
}

/// Entering a box from outside: the entry counts when it lies ahead of the
/// ray and before the exit.
pub fn slab_entry(span: (FaceHit, FaceHit)) -> (r: Option<FaceHit>)
    ensures
        r == (if 0 < span.0.t && span.0.t < span.1.t {
            Some(span.0)
        } else {
            None
        }),
{
    if span.0.t > 0 && span.0.t < span.1.t {
        Some(span.0)
    } else {
        None
    }
}

/// Leaving a box from inside: the exit counts when it lies ahead of the ray
/// and after the entry.
pub fn slab_exit(span: (FaceHit, FaceHit)) -> (r: Option<FaceHit>)
    ensures
        r == (if 0 < span.1.t && span.0.t < span.1.t {
            Some(span.1)
        } else {
            None
        }),
{
    if span.1.t > 0 && span.0.t < span.1.t {
        Some(span.1)
    } else {
        None
    }
}

} // verus!
