use raytracer::axis::Plane;
use raytracer::cube::{cube_faces, CubeFace};

#[test]
fn six_faces_in_plan_order() {
    let faces = cube_faces();
    assert_eq!(
        faces,
        vec![
            CubeFace { plane: Plane::XY, high: true },
            CubeFace { plane: Plane::XY, high: false },
            CubeFace { plane: Plane::XZ, high: true },
            CubeFace { plane: Plane::XZ, high: false },
            CubeFace { plane: Plane::YZ, high: true },
            CubeFace { plane: Plane::YZ, high: false },
        ]
    );
}

#[test]
fn one_high_and_one_low_face_per_plane() {
    let faces = cube_faces();
    for plane in [Plane::XY, Plane::XZ, Plane::YZ] {
        let highs = faces.iter().filter(|f| f.plane == plane && f.high).count();
        let lows = faces.iter().filter(|f| f.plane == plane && !f.high).count();
        assert_eq!((highs, lows), (1, 1));
    }
}
