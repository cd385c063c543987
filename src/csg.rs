use vstd::prelude::*;

verus! {

/// One of the two operands of a binary combinator.
#[derive(Clone, Copy, Debug, PartialEq, Eq, Structural)]
pub enum Operand {
    First,
    Second,
}

/// Index `i` holds the nearest of the collisions in `hits`, and no earlier
/// index holds one as near.
pub open spec fn is_nearest(hits: Seq<Option<i64>>, i: int) -> bool {
    &&& 0 <= i < hits.len()
    &&& hits[i] is Some
    &&& forall|j: int| 0 <= j < hits.len() && hits[j] is Some ==> hits[i]->0 <= hits[j]->0
    &&& forall|j: int| 0 <= j < i && hits[j] is Some ==> hits[i]->0 < hits[j]->0
}

/// Picks the nearest of several collisions, given as order keys, where `None`
/// stands for a miss. Among equally near collisions the first is picked; when
/// everything misses there is nothing to pick.
pub fn nearest(hits: &Vec<Option<i64>>) -> (r: Option<usize>)
    ensures
        r is None <==> forall|j: int| 0 <= j < hits@.len() ==> hits@[j] is None,
        r matches Some(i) ==> is_nearest(hits@, i as int),
{
    let mut best: Option<usize> = None;
    let mut i: usize = 0;
    while i < hits.len()
        invariant
            0 <= i <= hits@.len(),
            best is None <==> forall|j: int| 0 <= j < i ==> hits@[j] is None,
            best matches Some(b) ==> b < i && is_nearest(hits@.subrange(0, i as int), b as int),
        decreases hits@.len() - i,
    {
        if let Some(t) = hits[i] {
            match best {
                None => {
                    best = Some(i);
                },
                Some(b) => {
                    if let Some(tb) = hits[b] {
                        if t < tb {
                            best = Some(i);
                        }
                    }
                },
            }
        }
        assert(hits@.subrange(0, i + 1) =~= hits@.subrange(0, i as int).push(hits@[i as int]));
        i = i + 1;
    }
    assert(hits@.subrange(0, hits@.len() as int) =~= hits@);
    best
}

/// Of two shapes' collisions, a union reports the nearer when both are hit
/// (the first on a tie), the one hit when only one is, and nothing when
/// neither is.
pub proof fn lemma_union_of_two(a: Option<i64>, b: Option<i64>)
    ensures
        forall|i: int|
            is_nearest(seq![a, b], i) <==> (i == 0 && a is Some && (b is None || a->0 <= b->0)) || (
            i == 1 && b is Some && (a is None || b->0 < a->0)),
{
    let hits = seq![a, b];
    assert(hits[0] == a && hits[1] == b);
}

/// The solid common to two shapes.
pub struct Intersection<T, U> {
    shape1: T,
    shape2: U,
}

impl<T, U> Intersection<T, U> {
    pub closed spec fn spec_first(&self) -> T {
        self.shape1
    }

    pub closed spec fn spec_second(&self) -> U {
        self.shape2
    }

    pub fn new(shape1: T, shape2: U) -> (r: Intersection<T, U>)
        ensures
            r.spec_first() == shape1,
            r.spec_second() == shape2,
    {
        Intersection { shape1: shape1, shape2: shape2 }
    }

    pub fn first(&self) -> (r: &T)
        ensures
            *r == self.spec_first(),
    {
        &self.shape1
    }

    pub fn second(&self) -> (r: &U)
        ensures
            *r == self.spec_second(),
    {
        &self.shape2
    }
}

/// Entering an intersection from outside: the ray must have entered both
/// operands, so the farther of the two entries is the surface. When the two
/// are equally far the second is reported.
pub fn intersection_entry(first: Option<i64>, second: Option<i64>) -> (r: Option<Operand>)
    ensures
        r is Some <==> first is Some && second is Some,
        r == Some(Operand::First) <==> first is Some && second is Some && first->0 > second->0,
{
    match (first, second) {
        (Some(t1), Some(t2)) => {
            if t1 > t2 {
                Some(Operand::First)
            } else {
                Some(Operand::Second)
            }
        },
        _ => None,
    }
}

/// Leaving an intersection from inside: the first boundary crossed ends the
/// common solid, so the nearer of the two exits is the surface. When the two
/// are equally far the second is reported.
pub fn intersection_exit(first: Option<i64>, second: Option<i64>) -> (r: Option<Operand>)
    ensures
        r is Some <==> first is Some && second is Some,
        r == Some(Operand::First) <==> first is Some && second is Some && first->0 < second->0,
{
    match (first, second) {
        (Some(t1), Some(t2)) => {
            if t1 < t2 {
                Some(Operand::First)
            } else {
                Some(Operand::Second)
            }
        },
        _ => None,
    }
}

/// The infinite plane `z = 0`, its solid side below, its normal pointing up.
pub struct Plane(());

impl Plane {
    pub fn new() -> (r: Plane) {
        Plane(())
    }
}

/// A shape given by a signed distance estimator, found by marching along the
/// ray.
pub struct MarchShape<T>(pub T);

/// What a difference of two shapes (a base with a negative carved out of it)
/// reports for a ray that starts outside it.
#[derive(Clone, Copy, Debug, PartialEq, Eq, Structural)]
pub enum Carve {
    /// The ray never meets the carved solid.
    Miss,
    /// The base's own entry is the surface.
    Base,
    /// The ray leaves the negative while inside the base: the negative's exit,
    /// with its normal flipped, is the surface.
    NegativeExit,
    /// The ray leaves the negative somewhere else: the search starts again
    /// from the negative's exit.
    Restart,
}

/// The answer for a difference once every query along the ray is known:
/// the base's entry, the negative's entry, the negative's exit and the base's
/// exit, each an order key or `None` for a miss.
pub open spec fn carve_verdict(
    base_entry: Option<i64>,
    negative_entry: Option<i64>,
    negative_exit: Option<i64>,
    base_exit: Option<i64>,
) -> Carve {
    match (base_entry, negative_entry, negative_exit) {
        (None, _, _) => Carve::Miss,
        (Some(_), None, _) => Carve::Base,
        (Some(b), Some(n), _) if b < n => Carve::Base,
        (Some(_), Some(_), None) => Carve::Miss,
        (Some(b), Some(_), Some(x)) if x < b => Carve::Restart,
        (Some(_), Some(_), Some(x)) => match base_exit {
            None => Carve::NegativeExit,
            Some(y) => if x < y {
                Carve::NegativeExit
            } else {
                Carve::Restart
            },
        },
    }
}

/// The queries along a ray answered so far for a difference. The base's entry
/// is always asked first; for the others the outer `None` means "not yet
/// asked" and `Some(None)` a miss.
#[derive(Clone, Copy, Debug)]
pub struct CarveFacts {
    pub base_entry: Option<i64>,
    pub negative_entry: Option<Option<i64>>,
    pub negative_exit: Option<Option<i64>>,
    pub base_exit: Option<Option<i64>>,
}

/// The next move of the carving search: a verdict, or the query it needs.
#[derive(Clone, Copy, Debug, PartialEq, Eq, Structural)]
pub enum CarveStep {
    Done(Carve),
    AskNegativeEntry,
    AskNegativeExit,
    AskBaseExit,
}

/// `negative_entry`, `negative_exit` and `base_exit` are answers that agree
/// with every query that `facts` has answered.
pub open spec fn agrees(
    facts: CarveFacts,
    negative_entry: Option<i64>,
    negative_exit: Option<i64>,
    base_exit: Option<i64>,
) -> bool {
    &&& facts.negative_entry matches Some(a) ==> a == negative_entry
    &&& facts.negative_exit matches Some(a) ==> a == negative_exit
    &&& facts.base_exit matches Some(a) ==> a == base_exit
}

/// The ray meets the negative no later than the base, and where it leaves
/// the negative is not yet asked.
pub open spec fn needs_negative_exit(facts: CarveFacts) -> bool {
    match (facts.base_entry, facts.negative_entry) {
        (Some(b), Some(Some(n))) => n <= b && facts.negative_exit is None,
        _ => false,
    }
}

/// The ray leaves the negative no earlier than it enters the base, and where
/// it leaves the base is not yet asked.
pub open spec fn needs_base_exit(facts: CarveFacts) -> bool {
    match (facts.base_entry, facts.negative_entry, facts.negative_exit) {
        (Some(b), Some(Some(n)), Some(Some(x))) => n <= b && b <= x && facts.base_exit is None,
        _ => false,
    }
}

/// Decides a difference from the queries answered so far, asking for one
/// more only when the answers at hand leave the verdict open: the negative's
/// entry once the base is hit, the negative's exit once the ray meets the
/// negative no later than the base, the base's exit once the negative is
/// left no earlier than the base is entered.
pub fn carve(facts: &CarveFacts) -> (r: CarveStep)
    ensures
        r matches CarveStep::Done(v) ==> forall|ne: Option<i64>, nx: Option<i64>, bx: Option<i64>|
            agrees(*facts, ne, nx, bx) ==> v == carve_verdict(facts.base_entry, ne, nx, bx),
        r is AskNegativeEntry <==> facts.base_entry is Some && facts.negative_entry is None,
        r is AskNegativeExit <==> needs_negative_exit(*facts),
        r is AskBaseExit <==> needs_base_exit(*facts),
        facts.negative_entry is Some && facts.negative_exit is Some && facts.base_exit is Some
            ==> r == CarveStep::Done(
            carve_verdict(
                facts.base_entry,
                facts.negative_entry->0,
                facts.negative_exit->0,
                facts.base_exit->0,
            ),
        ),
        r == CarveStep::Done(Carve::Base) ==> facts.base_entry is Some,
        r == CarveStep::Done(Carve::NegativeExit) || r == CarveStep::Done(Carve::Restart)
            ==> facts.negative_exit matches Some(Some(_)),
{
    let b = match facts.base_entry {
        None => {
            return CarveStep::Done(Carve::Miss);
        },
        Some(b) => b,
    };
    let n = match facts.negative_entry {
        None => {
            return CarveStep::AskNegativeEntry;
        },
        Some(None) => {
            return CarveStep::Done(Carve::Base);
        },
        Some(Some(n)) => n,
    };
    if b < n {
        return CarveStep::Done(Carve::Base);
    }
    let x = match facts.negative_exit {
        None => {
            return CarveStep::AskNegativeExit;
        },
        Some(None) => {
            return CarveStep::Done(Carve::Miss);
        },
        Some(Some(x)) => x,
    };
    if x < b {
        return CarveStep::Done(Carve::Restart);
    }
    match facts.base_exit {
        None => CarveStep::AskBaseExit,
        Some(None) => CarveStep::Done(Carve::NegativeExit),
        Some(Some(y)) => {
            if x < y {
                CarveStep::Done(Carve::NegativeExit)
            } else {
                CarveStep::Done(Carve::Restart)
            }
        },
    }
}

/// Leaving a difference from inside: the ray ends at the base's exit, unless
/// it enters the negative first, whose entry (normal flipped) then ends it.
/// A ray that never leaves the base reports nothing. When the two are equally
/// far the base's exit is reported. A ray that starts inside both operands
/// (and so outside the difference) is treated as inside the base.
pub fn carve_exit(base_exit: Option<i64>, negative_entry: Option<i64>) -> (r: Option<Operand>)
    ensures
        r is Some <==> base_exit is Some,
        r == Some(Operand::Second) <==> base_exit is Some && negative_entry is Some
            && negative_entry->0 < base_exit->0,
{
    match base_exit {
        None => None,
        Some(b) => match negative_entry {
            Some(n) => {
                if n < b {
                    Some(Operand::Second)
                } else {
                    Some(Operand::First)
                }
            },
            None => Some(Operand::First),
        },
    }
}

} // verus!
