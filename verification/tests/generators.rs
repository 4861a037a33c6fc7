use noise::OpenSimplex;
use noise::Perlin;
use noise::PerlinSurflet;
use noise::PermutationTable;
use noise::Seed;
use noise::Seedable;
use noise::SuperSimplex;
use noise::Value;
use noise::DEFAULT_SEED;
use noise::seed_eq;

fn table_bytes(table: &PermutationTable) -> Vec<u8> {
    let mut out: Vec<u8> = Vec::new();
    for i in 0..256 {
        let i: isize = i;
        out.push(table.hash(&[i]) as u8);
    }
    out
}

#[test]
fn default_seed_constant() {
    let expected: Seed = [
        0x4f, 0x09, 0xd6, 0x9f, 0x62, 0x9b, 0x09, 0x0c, 0x0c, 0x49, 0x09, 0xfe, 0x6f, 0x1d, 0x4a,
        0x38,
    ];
    assert_eq!(DEFAULT_SEED, expected);
    assert_eq!(Perlin::DEFAULT_SEED, 0);
}

#[test]
fn seed_eq_compares_all_sixteen_bytes() {
    let a: Seed = [9; 16];
    let mut b: Seed = a;
    assert!(seed_eq(&a, &b));
    for i in 0..16 {
        b = a;
        b[i] ^= 0x80;
        assert!(!seed_eq(&a, &b));
    }
}

#[test]
fn new_keeps_the_seed_and_draws_its_table() {
    let seed: Seed = [3, 1, 4, 1, 5, 9, 2, 6, 5, 3, 5, 8, 9, 7, 9, 3];
    let expected = table_bytes(&PermutationTable::new(seed));
    assert_eq!(Perlin::new(seed).seed(), seed);
    assert_eq!(table_bytes(Perlin::new(seed).perm_table()), expected);
    assert_eq!(OpenSimplex::new(seed).seed(), seed);
    assert_eq!(table_bytes(OpenSimplex::new(seed).perm_table()), expected);
    assert_eq!(PerlinSurflet::new(seed).seed(), seed);
    assert_eq!(table_bytes(PerlinSurflet::new(seed).perm_table()), expected);
    assert_eq!(SuperSimplex::new(seed).seed(), seed);
    assert_eq!(table_bytes(SuperSimplex::new(seed).perm_table()), expected);
    assert_eq!(Value::new(seed).seed(), seed);
    assert_eq!(table_bytes(Value::new(seed).perm_table()), expected);
}

#[test]
fn default_uses_the_default_seed() {
    let expected = table_bytes(&PermutationTable::new(DEFAULT_SEED));
    assert_eq!(Perlin::default().seed(), DEFAULT_SEED);
    assert_eq!(table_bytes(Perlin::default().perm_table()), expected);
    assert_eq!(OpenSimplex::default().seed(), DEFAULT_SEED);
    assert_eq!(table_bytes(OpenSimplex::default().perm_table()), expected);
    assert_eq!(PerlinSurflet::default().seed(), DEFAULT_SEED);
    assert_eq!(table_bytes(PerlinSurflet::default().perm_table()), expected);
    assert_eq!(SuperSimplex::default().seed(), DEFAULT_SEED);
    assert_eq!(table_bytes(SuperSimplex::default().perm_table()), expected);
    assert_eq!(Value::default().seed(), DEFAULT_SEED);
    assert_eq!(table_bytes(Value::default().perm_table()), expected);
}

#[test]
fn generators_built_twice_from_one_seed_agree() {
    let seed: Seed = [0xde, 0xad, 0xbe, 0xef, 0, 1, 2, 3, 4, 5, 6, 7, 8, 9, 10, 11];
    let a = Perlin::new(seed);
    let b = Perlin::default().set_seed(seed);
    assert_eq!(a.seed(), b.seed());
    assert_eq!(table_bytes(a.perm_table()), table_bytes(b.perm_table()));
    for x in -20..20 {
        for y in -20..20 {
            let x: isize = x;
            let y: isize = y;
            assert_eq!(a.perm_table().hash(&[x, y]), b.perm_table().hash(&[x, y]));
            assert_eq!(a.perm_table().hash(&[x, y]), a.perm_table().hash(&[x, y]));
        }
    }
}

#[test]
fn set_seed_with_the_same_seed_changes_nothing() {
    let seed: Seed = [0x11; 16];
    let before = Value::new(seed);
    let after = before.set_seed(seed);
    assert_eq!(after.seed(), seed);
    assert_eq!(table_bytes(after.perm_table()), table_bytes(before.perm_table()));
}

#[test]
fn set_seed_with_a_new_seed_rebuilds_the_table() {
    let old: Seed = [0x11; 16];
    let new: Seed = [0x12; 16];
    let fresh = table_bytes(&PermutationTable::new(new));
    assert_ne!(fresh, table_bytes(&PermutationTable::new(old)));

    let perlin = Perlin::new(old).set_seed(new);
    assert_eq!(perlin.seed(), new);
    assert_eq!(table_bytes(perlin.perm_table()), fresh);
    let open_simplex = OpenSimplex::new(old).set_seed(new);
    assert_eq!(open_simplex.seed(), new);
    assert_eq!(table_bytes(open_simplex.perm_table()), fresh);
    let surflet = PerlinSurflet::new(old).set_seed(new);
    assert_eq!(surflet.seed(), new);
    assert_eq!(table_bytes(surflet.perm_table()), fresh);
    let super_simplex = SuperSimplex::new(old).set_seed(new);
    assert_eq!(super_simplex.seed(), new);
    assert_eq!(table_bytes(super_simplex.perm_table()), fresh);
    let value = Value::new(old).set_seed(new);
    assert_eq!(value.seed(), new);
    assert_eq!(table_bytes(value.perm_table()), fresh);
}

#[test]
fn set_seed_back_restores_the_first_table() {
    let first: Seed = DEFAULT_SEED;
    let second: Seed = [0; 16];
    let start = SuperSimplex::new(first);
    let back = start.set_seed(second).set_seed(first);
    assert_eq!(back.seed(), first);
    assert_eq!(table_bytes(back.perm_table()), table_bytes(start.perm_table()));
}

#[test]
fn generators_are_plain_copies() {
    let a = Perlin::new([5; 16]);
    let b = a;
    let c = a.clone();
    assert_eq!(a.seed(), b.seed());
    assert_eq!(table_bytes(a.perm_table()), table_bytes(c.perm_table()));
    assert!(format!("{:?}", a).starts_with("Perlin"));
}

#[test]
fn default_perlin_hash_at_the_origin_cell() {
    let perlin = Perlin::default();
    let table = perlin.perm_table();
    let corners: [[isize; 2]; 4] = [[0, 0], [1, 0], [0, 1], [1, 1]];
    let mut hashes: Vec<usize> = Vec::new();
    for c in corners.iter() {
        hashes.push(table.hash(c));
    }
    assert_eq!(hashes, vec![100, 65, 140, 222]);
    let again = Perlin::new(DEFAULT_SEED);
    for (c, h) in corners.iter().zip(hashes.iter()) {
        assert_eq!(again.perm_table().hash_offset(&[0, 0], c), *h);
    }
}
