use vstd::prelude::*;

verus! {

/// A body of the scene: one shape made of one material.
pub struct BasicBody<S, M> {
    pub shape: S,
    pub material: M,
}

/// How many times light that has entered a body may cross its inside before
/// it is given up.
pub const INTERNAL_BOUNCES: usize = 5;

/// What one crossing of a body's inside gives: `None` when the ray never
/// reaches the surface again, else the ray reflected back inside (if any) and
/// the ray that leaves the body (if any).
pub type Crossing<R> = Option<(Option<R>, Option<R>)>;

/// The rays that leave, in order, over a run of crossings.
pub open spec fn escaped<R>(crossings: Seq<Crossing<R>>) -> Seq<R>
    decreases crossings.len(),
{
    if crossings.len() == 0 {
        Seq::empty()
    } else {
        let rest = escaped(crossings.drop_last());
        match crossings.last() {
            Some((_, Some(out))) => rest.push(out),
            _ => rest,
        }
    }
}

/// The crossing `c` reflects the ray `next` back inside.
pub open spec fn reflects_into<R>(c: Crossing<R>, next: R) -> bool {
    c matches Some((Some(back), _)) && back == next
}

/// `crossings` are the answers of `cross` along a path inside a body that
/// starts with the ray `start`: `rays[k]` was handed to `cross` and gave
/// `crossings[k]`, each later ray is the one reflected back by the crossing
/// before it, and the path stops after `INTERNAL_BOUNCES` crossings or when a
/// crossing reflects nothing back inside.
pub open spec fn internal_path<R, F: Fn(R) -> Crossing<R>>(
    cross: F,
    start: R,
    rays: Seq<R>,
    crossings: Seq<Crossing<R>>,
) -> bool {
    let m = crossings.len();
    &&& rays.len() == m
    &&& 1 <= m <= INTERNAL_BOUNCES
    &&& rays[0] == start
    &&& forall|k: int| 0 <= k < m ==> cross.ensures((rays[k],), crossings[k])
    &&& forall|k: int| 0 <= k < m - 1 ==> reflects_into(#[trigger] crossings[k], rays[k + 1])
    &&& m == INTERNAL_BOUNCES || !(crossings[m - 1] matches Some((Some(_), _)))
}

/// Follows a ray that has been refracted into a body while it bounces around
/// inside, and returns the rays that leave the body on the way. `cross`
/// carries a ray to the surface from inside and asks the material what
/// happens there. Light still inside after `INTERNAL_BOUNCES` crossings is
/// lost.
pub fn internal_rays<R, F: Fn(R) -> Crossing<R>>(start: R, cross: F) -> (r: Vec<R>)
    requires
        forall|x: R| cross.requires((x,)),
    ensures
        exists|rays: Seq<R>, crossings: Seq<Crossing<R>>|
            internal_path(cross, start, rays, crossings) && r@ == escaped(crossings),
{
    let mut out: Vec<R> = Vec::new();
    let mut current: Option<R> = Some(start);
    let mut n: usize = 0;
    let ghost mut rays: Seq<R> = Seq::empty();
    let ghost mut crossings: Seq<Crossing<R>> = Seq::empty();
    while n < INTERNAL_BOUNCES
        invariant
            forall|x: R| cross.requires((x,)),
            n <= INTERNAL_BOUNCES,
            rays.len() == n,
            crossings.len() == n,
            n == 0 ==> current == Some(start),
            n > 0 ==> rays[0] == start,
            forall|k: int| 0 <= k < n ==> cross.ensures((rays[k],), crossings[k]),
            forall|k: int| 0 <= k < n - 1 ==> reflects_into(#[trigger] crossings[k], rays[k + 1]),
            n > 0 ==> (current matches Some(c) <==> crossings[n - 1] matches Some((Some(_), _))),
            n > 0 ==> (current matches Some(c) ==> reflects_into(crossings[n - 1], c)),
            out@ == escaped(crossings),
        ensures
            n >= 1,
            n == INTERNAL_BOUNCES || current is None,
        decreases INTERNAL_BOUNCES - n,
    {
        let ray = match current {
            None => {
                break;
            },
            Some(ray) => ray,
        };
        let crossing = cross(ray);
        let ghost before = crossings;
        proof {
            rays = rays.push(ray);
            crossings = crossings.push(crossing);
            assert(crossings.drop_last() =~= before);
        }
        match crossing {
            None => {
                current = None;
            },
            Some((back, leaving)) => {
                current = back;
                match leaving {
                    Some(l) => out.push(l),
                    None => {},
                }
            },
        }
        n = n + 1;
    }
    assert(internal_path(cross, start, rays, crossings));
    out
}

} // verus!
