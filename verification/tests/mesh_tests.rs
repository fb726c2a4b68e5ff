use raytracer::mesh::{triangle_triples, triples_in_range};

#[test]
fn triples_group_by_three() {
    let indices = vec![0u32, 1, 2, 2, 3, 0];
    let triples = triangle_triples(&indices);
    assert_eq!(triples, vec![(0, 1, 2), (2, 3, 0)]);
}

#[test]
fn triples_drop_the_remainder() {
    let indices = vec![4u32, 5, 6, 7, 8];
    let triples = triangle_triples(&indices);
    assert_eq!(triples, vec![(4, 5, 6)]);
}

#[test]
fn triples_of_empty_buffer() {
    let indices: Vec<u32> = vec![];
    assert_eq!(triangle_triples(&indices), vec![]);
}

#[test]
fn in_range_accepts_valid_corners() {
    let triples = vec![(0u32, 1u32, 2u32), (2, 3, 0)];
    assert!(triples_in_range(&triples, 4));
}

#[test]
fn in_range_rejects_an_out_of_range_corner() {
    let triples = vec![(0u32, 1u32, 2u32), (2, 4, 0)];
    assert!(!triples_in_range(&triples, 4));
    assert!(triples_in_range(&triples, 5));
}

#[test]
fn in_range_of_empty_list() {
    let triples: Vec<(u32, u32, u32)> = vec![];
    assert!(triples_in_range(&triples, 0));
}
