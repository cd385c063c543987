use raytrace::cuboid::{possible_collisions, slab_entry, slab_exit, Face, FaceHit};

#[test]
fn slab_along_z_enters_bottom_leaves_top() {
    // A ray going up through a box: x and y crossings infinitely far on
    // either side, z faces at 8 (top) and 4 (bottom).
    let (i, o) = possible_collisions((i64::MAX, i64::MIN), (i64::MIN, i64::MAX), (8, 4));
    assert_eq!(i, FaceHit { t: 4, face: Face::Down });
    assert_eq!(o, FaceHit { t: 8, face: Face::Up });
    assert_eq!(slab_entry((i, o)), Some(i));
    assert_eq!(slab_exit((i, o)), Some(o));
}

#[test]
fn slab_takes_latest_entry_and_earliest_exit() {
    let (i, o) = possible_collisions((2, 10), (7, 3), (-5, 9));
    assert_eq!(i, FaceHit { t: 3, face: Face::Backwards });
    assert_eq!(o, FaceHit { t: 7, face: Face::Forwards });
}

#[test]
fn slab_from_inside_has_no_entry() {
    let (i, o) = possible_collisions((-2, 10), (-3, 3), (-5, 9));
    assert_eq!(i.t, -2);
    assert_eq!(slab_entry((i, o)), None);
    assert_eq!(slab_exit((i, o)), Some(FaceHit { t: 3, face: Face::Backwards }));
}

#[test]
fn slab_missed_box() {
    let (i, o) = possible_collisions((1, 2), (5, 6), (-9, 9));
    assert_eq!(slab_entry((i, o)), None);
    assert_eq!(slab_exit((i, o)), None);
}

#[test]
fn face_hit_tie_breaks() {
    let a = FaceHit { t: 1, face: Face::Left };
    let b = FaceHit { t: 1, face: Face::Right };
    assert_eq!(a.min_max(b), (b, a));
    assert_eq!(a.max(b), b);
    assert_eq!(a.min(b), b);
}
