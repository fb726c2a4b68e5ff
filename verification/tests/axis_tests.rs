use raytracer::axis::{get_axis_index, place_axis_values, Axis, Plane};

#[test]
fn axis_x_indices() {
    assert_eq!(get_axis_index(&Axis::X), (0, 1, 2));
}

#[test]
fn axis_y_indices() {
    assert_eq!(get_axis_index(&Axis::Y), (1, 0, 2));
}

#[test]
fn axis_z_indices() {
    assert_eq!(get_axis_index(&Axis::Z), (2, 0, 1));
}

#[test]
fn plane_yz_indices() {
    assert_eq!(Plane::YZ.get_axis_index(), (0, 1, 2));
}

#[test]
fn plane_xz_indices() {
    assert_eq!(Plane::XZ.get_axis_index(), (1, 0, 2));
}

#[test]
fn plane_xy_indices() {
    assert_eq!(Plane::XY.get_axis_index(), (2, 0, 1));
}

#[test]
fn placement_puts_each_value_on_its_axis() {
    // XY plane: k is the z axis, a and b are x and y.
    assert_eq!(
        place_axis_values(Plane::XY.get_axis_index(), 30, 10, 20),
        (10, 20, 30)
    );
    // XZ plane: k is the y axis, a and b are x and z.
    assert_eq!(
        place_axis_values(Plane::XZ.get_axis_index(), 30, 10, 20),
        (10, 30, 20)
    );
    // YZ plane: k is the x axis, a and b are y and z.
    assert_eq!(
        place_axis_values(Plane::YZ.get_axis_index(), 30, 10, 20),
        (30, 10, 20)
    );
}

#[test]
fn placement_round_trips_through_the_rotation_triples() {
    for axis in [Axis::X, Axis::Y, Axis::Z] {
        let slots = get_axis_index(&axis);
        let placed = place_axis_values(slots, 7, 8, 9);
        let as_array = [placed.0, placed.1, placed.2];
        assert_eq!(as_array[slots.0], 7);
        assert_eq!(as_array[slots.1], 8);
        assert_eq!(as_array[slots.2], 9);
    }
}

#[test]
fn every_triple_is_a_permutation() {
    for triple in [
        get_axis_index(&Axis::X),
        get_axis_index(&Axis::Y),
        get_axis_index(&Axis::Z),
        Plane::XY.get_axis_index(),
        Plane::XZ.get_axis_index(),
        Plane::YZ.get_axis_index(),
    ] {
        let mut seen = [false; 3];
        seen[triple.0] = true;
        seen[triple.1] = true;
        seen[triple.2] = true;
        assert_eq!(seen, [true, true, true]);
    }
}
