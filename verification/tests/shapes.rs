use auto_impl_trait::{Entity, Perimeter, Square};

#[test]
fn entity_holds_its_data() {
    let e = Entity::new("payload");
    assert_eq!(e.data, "payload");
}

#[test]
fn square_area_is_side_squared() {
    let s = Square { side: 5 };
    assert_eq!(s.area(), 25);
}

#[test]
fn square_perimeter_is_four_sides() {
    let s = Square { side: 5 };
    assert_eq!(s.perimeter(), 20);
}

#[test]
fn square_scale_multiplies_the_side() {
    let mut s = Square { side: 5 };
    s.scale(3);
    assert_eq!(s.side, 15);
}
