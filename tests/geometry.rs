use crow_jewels::units::add_clamped;
use crow_jewels::{collide, Aabb, Contact};

fn bx(x: i64, y: i64, width: i64, height: i64) -> Aabb {
    Aabb { x, y, width, height }
}

#[test]
fn sides_of_contact() {
    let crow = bx(0, 0, 60, 60);
    assert_eq!(collide(&bx(-50, 0, 60, 20), &crow), Some(Contact::Left));
    assert_eq!(collide(&bx(50, 0, 60, 20), &crow), Some(Contact::Right));
    assert_eq!(collide(&bx(0, -50, 20, 60), &crow), Some(Contact::Bottom));
    assert_eq!(collide(&bx(0, 50, 20, 60), &crow), Some(Contact::Top));
}

#[test]
fn apart_or_edge_to_edge_is_no_contact() {
    let crow = bx(0, 0, 60, 60);
    assert_eq!(collide(&bx(100, 0, 40, 40), &crow), None);
    assert_eq!(collide(&bx(60, 0, 60, 60), &crow), None);
    assert_eq!(collide(&bx(0, -60, 60, 60), &crow), None);
}

#[test]
fn enclosing_box_is_no_contact() {
    let crow = bx(0, 0, 60, 60);
    assert_eq!(collide(&bx(0, 0, 200, 200), &crow), None);
    assert_eq!(collide(&bx(0, 0, 60, 60), &crow), None);
}

#[test]
fn shallower_axis_decides_a_corner() {
    let crow = bx(0, 0, 60, 60);
    // Deep to the left, shallow below: the crow rests on it.
    assert_eq!(collide(&bx(-40, -55, 60, 60), &crow), Some(Contact::Bottom));
    // Shallow to the left, deep below: it blocks on the left.
    assert_eq!(collide(&bx(-55, -40, 60, 60), &crow), Some(Contact::Left));
    // Equal depths: the horizontal side wins.
    assert_eq!(collide(&bx(-50, -50, 60, 60), &crow), Some(Contact::Left));
}

#[test]
fn odd_sizes_keep_half_steps() {
    let crow = bx(0, 0, 3, 3);
    // Edges at -1.5 and 1.5 against 1 and 2: they overlap by half a step.
    assert_eq!(collide(&bx(2, 0, 2, 1), &crow), Some(Contact::Right));
    assert_eq!(collide(&bx(3, 0, 3, 1), &crow), None);
}

#[test]
fn large_coordinates_do_not_overflow() {
    let a = bx(i64::MAX, i64::MAX, i64::MAX, i64::MAX);
    let b = bx(i64::MIN, i64::MIN, i64::MAX, i64::MAX);
    assert_eq!(collide(&a, &b), None);
    assert_eq!(collide(&a, &a), None);
}

#[test]
fn clamped_sums() {
    assert_eq!(add_clamped(5, -7), -2);
    assert_eq!(add_clamped(i64::MAX, 1), i64::MAX);
    assert_eq!(add_clamped(i64::MIN, -5), i64::MIN);
}
