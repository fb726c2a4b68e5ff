use rand::rngs::StdRng;
use rand::SeedableRng;
use raytracer::perlin::{shuffled_table, PerlinTables};

fn assert_is_permutation(table: &[usize]) {
    assert_eq!(table.len(), 256);
    let mut seen = [false; 256];
    for &v in table {
        assert!(v < 256);
        assert!(!seen[v], "value {} appears twice", v);
        seen[v] = true;
    }
}

#[test]
fn shuffled_table_is_a_permutation() {
    let mut rng = StdRng::seed_from_u64(7);
    let table = shuffled_table(&mut rng);
    assert_is_permutation(&table);
}

#[test]
fn tables_are_permutations() {
    let mut rng = StdRng::seed_from_u64(11);
    let tables = PerlinTables::new(&mut rng);
    assert_is_permutation(&tables.perm_x);
    assert_is_permutation(&tables.perm_y);
    assert_is_permutation(&tables.perm_z);
}

#[test]
fn the_same_seed_builds_the_same_tables() {
    let mut rng_a = StdRng::seed_from_u64(42);
    let mut rng_b = StdRng::seed_from_u64(42);
    let a = PerlinTables::new(&mut rng_a);
    let b = PerlinTables::new(&mut rng_b);
    assert_eq!(a.perm_x, b.perm_x);
    assert_eq!(a.perm_y, b.perm_y);
    assert_eq!(a.perm_z, b.perm_z);
}

#[test]
fn lattice_index_matches_the_tables() {
    let mut rng = StdRng::seed_from_u64(13);
    let tables = PerlinTables::new(&mut rng);
    for (x, y, z) in [(0usize, 0usize, 0usize), (1, 2, 3), (255, 256, 257), (1000, 4096, 77)] {
        let expected = tables.perm_x[x & 255] ^ tables.perm_y[y & 255] ^ tables.perm_z[z & 255];
        assert_eq!(tables.lattice_index(x, y, z), expected);
    }
}

#[test]
fn lattice_index_stays_in_the_gradient_list() {
    let mut rng = StdRng::seed_from_u64(17);
    let tables = PerlinTables::new(&mut rng);
    for x in 0..64usize {
        for y in 0..8usize {
            let r = tables.lattice_index(x, y, x.wrapping_mul(31).wrapping_add(y));
            assert!(r < 256);
        }
    }
}

#[test]
fn lattice_index_folds_coordinates() {
    let mut rng = StdRng::seed_from_u64(19);
    let tables = PerlinTables::new(&mut rng);
    // Coordinates 256 apart fold to the same table slot.
    assert_eq!(
        tables.lattice_index(3, 5, 7),
        tables.lattice_index(3 + 256, 5 + 512, 7 + 1024)
    );
}
