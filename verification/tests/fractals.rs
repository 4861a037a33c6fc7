use noise::build_sources;
use noise::Octaves;
use noise::OpenSimplex;
use noise::Perlin;
use noise::PermutationTable;
use noise::Seed;
use noise::Seedable;
use noise::Value;
use noise::DEFAULT_SEED;

fn table_of(table: &PermutationTable) -> Vec<u8> {
    let mut out: Vec<u8> = Vec::new();
    for i in 0..256 {
        let i: isize = i;
        out.push(table.hash(&[i]) as u8);
    }
    out
}

#[test]
fn no_octaves_no_sources() {
    let sources: Vec<Perlin> = build_sources(DEFAULT_SEED, 0);
    assert!(sources.is_empty());
}

#[test]
fn one_octave_is_the_base_seed() {
    let sources: Vec<Perlin> = build_sources(DEFAULT_SEED, 1);
    assert_eq!(sources.len(), 1);
    assert_eq!(sources[0].seed(), DEFAULT_SEED);
    assert_eq!(table_of(sources[0].perm_table()), table_of(Perlin::default().perm_table()));
}

#[test]
fn each_octave_advances_the_first_seed_byte() {
    let sources: Vec<Perlin> = build_sources(DEFAULT_SEED, 6);
    assert_eq!(sources.len(), 6);
    for (x, source) in sources.iter().enumerate() {
        let mut expected: Seed = DEFAULT_SEED;
        expected[0] = 0x4f + (x as u8);
        assert_eq!(source.seed(), expected);
        assert_eq!(table_of(source.perm_table()), table_of(&PermutationTable::new(expected)));
    }
    assert_eq!(sources[5].seed()[0], 0x54);
    assert_eq!(sources[5].seed()[1..], DEFAULT_SEED[1..]);
}

#[test]
fn octave_seed_byte_wraps_at_256() {
    let mut seed: Seed = [0; 16];
    seed[0] = 0xfe;
    seed[1] = 0xff;
    let sources: Vec<Value> = build_sources(seed, 4);
    let first_bytes: Vec<u8> = sources.iter().map(|s| s.seed()[0]).collect();
    assert_eq!(first_bytes, vec![0xfe, 0xff, 0x00, 0x01]);
    for source in sources.iter() {
        assert_eq!(source.seed()[1], 0xff);
        assert_eq!(source.seed()[2..], [0u8; 14]);
    }
}

#[test]
fn octave_number_wraps_after_256_octaves() {
    let seed: Seed = [0x10; 16];
    let sources: Vec<OpenSimplex> = build_sources(seed, 258);
    assert_eq!(sources.len(), 258);
    assert_eq!(sources[0].seed()[0], 0x10);
    assert_eq!(sources[255].seed()[0], 0x0f);
    assert_eq!(sources[256].seed(), sources[0].seed());
    assert_eq!(sources[257].seed(), sources[1].seed());
}

#[test]
fn octaves_within_256_have_distinct_seeds_and_tables() {
    let sources: Vec<Perlin> = build_sources(DEFAULT_SEED, 32);
    for i in 0..sources.len() {
        for j in 0..i {
            assert_ne!(sources[i].seed(), sources[j].seed());
            assert_ne!(table_of(sources[i].perm_table()), table_of(sources[j].perm_table()));
        }
    }
}

#[test]
fn sources_are_the_same_on_every_build() {
    let a: Vec<Perlin> = build_sources([42; 16], 8);
    let b: Vec<Perlin> = build_sources([42; 16], 8);
    for (x, y) in a.iter().zip(b.iter()) {
        assert_eq!(x.seed(), y.seed());
        assert_eq!(table_of(x.perm_table()), table_of(y.perm_table()));
    }
}

fn seeds_of(octaves: &Octaves<Perlin>) -> Vec<Seed> {
    octaves.sources().iter().map(|s| s.seed()).collect()
}

#[test]
fn octaves_hold_one_source_per_octave() {
    let octaves: Octaves<Perlin> = Octaves::new(DEFAULT_SEED, 6);
    assert_eq!(octaves.octaves(), 6);
    assert_eq!(octaves.sources().len(), 6);
    assert_eq!(octaves.seed(), DEFAULT_SEED);
    let built: Vec<Perlin> = build_sources(DEFAULT_SEED, 6);
    let expected: Vec<Seed> = built.iter().map(|s| s.seed()).collect();
    assert_eq!(seeds_of(&octaves), expected);
    assert_eq!(seeds_of(&octaves)[3][0], 0x52);
}

#[test]
fn a_single_octave_holds_the_base_seed() {
    let octaves: Octaves<Value> = Octaves::new([0xc3; 16], 1);
    assert_eq!(octaves.octaves(), 1);
    assert_eq!(octaves.sources()[0].seed(), [0xc3; 16]);
    assert_eq!(
        table_of(octaves.sources()[0].perm_table()),
        table_of(Value::new([0xc3; 16]).perm_table())
    );
}

#[test]
fn octaves_may_be_none() {
    let octaves: Octaves<Perlin> = Octaves::new(DEFAULT_SEED, 0);
    assert_eq!(octaves.octaves(), 0);
    assert!(octaves.sources().is_empty());
    let grown = octaves.set_octaves(2);
    assert_eq!(seeds_of(&grown).len(), 2);
    assert_eq!(grown.set_octaves(0).octaves(), 0);
}

#[test]
fn set_octaves_keeps_the_seed_and_rebuilds_the_sources() {
    let octaves: Octaves<Perlin> = Octaves::new([9; 16], 3);
    let same = octaves.clone().set_octaves(3);
    assert_eq!(seeds_of(&same), seeds_of(&octaves));
    let more = octaves.clone().set_octaves(5);
    assert_eq!(more.seed(), [9; 16]);
    assert_eq!(more.octaves(), 5);
    assert_eq!(seeds_of(&more)[..3], seeds_of(&octaves)[..]);
    assert_eq!(seeds_of(&more)[4][0], 13);
    let fewer = more.set_octaves(2);
    assert_eq!(seeds_of(&fewer)[..], seeds_of(&octaves)[..2]);
}

#[test]
fn set_seed_on_octaves_reseeds_every_source() {
    let octaves: Octaves<Perlin> = Octaves::new([1; 16], 4);
    let same = octaves.clone().set_seed([1; 16]);
    assert_eq!(seeds_of(&same), seeds_of(&octaves));
    let moved = octaves.set_seed([0xf0; 16]);
    assert_eq!(moved.seed(), [0xf0; 16]);
    assert_eq!(moved.octaves(), 4);
    let first_bytes: Vec<u8> = seeds_of(&moved).iter().map(|s| s[0]).collect();
    assert_eq!(first_bytes, vec![0xf0, 0xf1, 0xf2, 0xf3]);
    for source in moved.sources().iter() {
        assert_eq!(
            table_of(source.perm_table()),
            table_of(&PermutationTable::new(source.seed()))
        );
    }
}

#[test]
fn a_clone_of_octaves_has_the_same_sources() {
    let octaves: Octaves<OpenSimplex> = Octaves::new([0x77; 16], 5);
    let copy = octaves.clone();
    assert_eq!(copy.seed(), octaves.seed());
    assert_eq!(copy.octaves(), octaves.octaves());
    for (a, b) in copy.sources().iter().zip(octaves.sources().iter()) {
        assert_eq!(a.seed(), b.seed());
        assert_eq!(table_of(a.perm_table()), table_of(b.perm_table()));
    }
}
