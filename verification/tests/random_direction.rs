use flowboard::Direction;
use random::Source;

#[test]
fn from_u64_counts_through_the_directions() {
    let order = [Direction::North, Direction::South, Direction::East, Direction::West];
    for n in 0u64..16 {
        assert_eq!(Direction::from_u64(n), order[(n % 4) as usize]);
    }
    assert_eq!(Direction::from_u64(u64::MAX), Direction::West);
    assert_eq!(Direction::from_u64(u64::MAX - 3), Direction::North);
}

#[test]
fn read_draws_from_the_source() {
    let mut source = random::default(42);
    let mut twin = source;
    let mut seen = Vec::new();
    for _ in 0..64 {
        let drawn = Direction::read(&mut source);
        assert_eq!(drawn, Direction::from_u64(twin.read_u64()));
        if !seen.contains(&drawn) {
            seen.push(drawn);
        }
    }
    // The source has moved on, and every direction has come up.
    assert_eq!(seen.len(), 4);
    assert_eq!(source.read_u64(), twin.read_u64());
}
