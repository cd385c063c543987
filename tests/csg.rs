use raytrace::csg::{
    carve, carve_exit, intersection_entry, intersection_exit, nearest, Carve, CarveFacts,
    CarveStep, Intersection, Operand, Plane,
};

#[test]
fn nearest_of_two_hits_is_the_nearer() {
    assert_eq!(nearest(&vec![Some(9), Some(4)]), Some(1));
    assert_eq!(nearest(&vec![Some(4), Some(9)]), Some(0));
}

#[test]
fn nearest_of_one_hit_is_that_hit() {
    assert_eq!(nearest(&vec![None, Some(7)]), Some(1));
    assert_eq!(nearest(&vec![Some(7), None]), Some(0));
}

#[test]
fn nearest_of_no_hits_is_none() {
    assert_eq!(nearest(&vec![None, None]), None);
    assert_eq!(nearest(&vec![]), None);
}

#[test]
fn nearest_prefers_the_first_of_equals() {
    assert_eq!(nearest(&vec![None, Some(3), Some(8), Some(3)]), Some(1));
}

#[test]
fn intersection_entry_is_the_farther() {
    assert_eq!(intersection_entry(Some(2), Some(5)), Some(Operand::Second));
    assert_eq!(intersection_entry(Some(6), Some(5)), Some(Operand::First));
    assert_eq!(intersection_entry(Some(5), Some(5)), Some(Operand::Second));
    assert_eq!(intersection_entry(None, Some(5)), None);
    assert_eq!(intersection_entry(Some(5), None), None);
}

#[test]
fn intersection_exit_is_the_nearer() {
    assert_eq!(intersection_exit(Some(2), Some(5)), Some(Operand::First));
    assert_eq!(intersection_exit(Some(6), Some(5)), Some(Operand::Second));
    assert_eq!(intersection_exit(None, None), None);
}

#[test]
fn intersection_keeps_its_operands() {
    let i = Intersection::new(3u8, 'a');
    assert_eq!(*i.first(), 3u8);
    assert_eq!(*i.second(), 'a');
    let _plane = Plane::new();
}

fn run_carve(base: Option<i64>, ne: Option<i64>, nx: Option<i64>, bx: Option<i64>) -> Carve {
    let mut facts = CarveFacts {
        base_entry: base,
        negative_entry: None,
        negative_exit: None,
        base_exit: None,
    };
    loop {
        match carve(&facts) {
            CarveStep::Done(v) => return v,
            CarveStep::AskNegativeEntry => facts.negative_entry = Some(ne),
            CarveStep::AskNegativeExit => facts.negative_exit = Some(nx),
            CarveStep::AskBaseExit => facts.base_exit = Some(bx),
        }
    }
}

#[test]
fn carve_misses_without_base() {
    assert_eq!(
        carve(&CarveFacts {
            base_entry: None,
            negative_entry: None,
            negative_exit: None,
            base_exit: None
        }),
        CarveStep::Done(Carve::Miss)
    );
}

#[test]
fn carve_asks_for_the_negative_entry_first() {
    assert_eq!(
        carve(&CarveFacts {
            base_entry: Some(3),
            negative_entry: None,
            negative_exit: None,
            base_exit: None
        }),
        CarveStep::AskNegativeEntry
    );
}

#[test]
fn carve_base_before_negative() {
    assert_eq!(run_carve(Some(5), Some(8), Some(12), Some(15)), Carve::Base);
    assert_eq!(run_carve(Some(5), None, None, None), Carve::Base);
}

#[test]
fn carve_never_leaving_negative_misses() {
    assert_eq!(run_carve(Some(5), Some(2), None, Some(15)), Carve::Miss);
}

#[test]
fn carve_negative_exit_inside_base() {
    assert_eq!(run_carve(Some(5), Some(2), Some(8), Some(15)), Carve::NegativeExit);
    assert_eq!(run_carve(Some(5), Some(2), Some(8), None), Carve::NegativeExit);
}

#[test]
fn carve_restarts_after_negative() {
    assert_eq!(run_carve(Some(5), Some(1), Some(3), Some(15)), Carve::Restart);
    assert_eq!(run_carve(Some(5), Some(1), Some(16), Some(15)), Carve::Restart);
}

// A ray from (0, 0, -10) towards the origin: the sphere of radius 5 is
// entered at distance 5 and left at 15. A 4x4x4 cube at the origin is
// entered at 8 and left at 12: the sphere's surface is reported. A cube
// large enough to cover the sphere's surface along the ray (entered at 2,
// left at 18) sends the search on beyond the cube, where no sphere is ahead.
#[test]
fn carve_sphere_minus_cube_along_an_axis() {
    assert_eq!(run_carve(Some(5), Some(8), Some(12), Some(15)), Carve::Base);
    assert_eq!(run_carve(Some(5), Some(2), Some(18), Some(15)), Carve::Restart);
    assert_eq!(run_carve(None, Some(2), Some(18), None), Carve::Miss);
}

#[test]
fn carve_exit_from_inside() {
    assert_eq!(carve_exit(Some(9), None), Some(Operand::First));
    assert_eq!(carve_exit(Some(9), Some(4)), Some(Operand::Second));
    assert_eq!(carve_exit(Some(9), Some(12)), Some(Operand::First));
    assert_eq!(carve_exit(None, Some(4)), None);
}
