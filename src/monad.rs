use vstd::prelude::*;

verus! {

/// Applies `f` to the two values when both are present, and yields nothing
/// when either is absent.
#[allow(non_snake_case)]
pub fn liftA2<A, B, C, F: Fn(A, B) -> C>(f: F, option1: Option<A>, option2: Option<B>) -> (r:
    Option<C>)
    requires
        forall|a: A, b: B| option1 == Some(a) && option2 == Some(b) ==> f.requires((a, b)),
    ensures
        (option1 is None || option2 is None) <==> r is None,
        r matches Some(c) ==> f.ensures((option1->0, option2->0), c),
{
    match (option1, option2) {
        (Some(a), Some(b)) => Some(f(a, b)),
        _ => None,
    }
}

} // verus!
