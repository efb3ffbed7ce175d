use chain_rig::breakaway::{breaks_away, debris_from, woosh_chain, LinkState};
use chain_rig::geometry::Vec2;

fn link(px: i32, py: i32, vx: i32, vy: i32) -> LinkState {
    LinkState { position: Vec2::new(px, py), velocity: Vec2::new(vx, vy) }
}

#[test]
fn speed_exactly_at_threshold_does_not_break() {
    assert!(!breaks_away(Vec2::new(1_000_000, 0), Vec2::new(0, 0)));
    assert!(!breaks_away(Vec2::new(600_000, 800_000), Vec2::new(0, 0)));
    assert!(!breaks_away(Vec2::new(1_250_000, 10), Vec2::new(250_000, 10)));
}

#[test]
fn speed_just_above_threshold_breaks() {
    assert!(breaks_away(Vec2::new(1_000_010, 0), Vec2::new(0, 0)));
    assert!(breaks_away(Vec2::new(0, -1_000_010), Vec2::new(0, 0)));
    assert!(breaks_away(Vec2::new(-500_000, 0), Vec2::new(500_001, 0)));
}

#[test]
fn extreme_velocities_do_not_overflow() {
    assert!(breaks_away(Vec2::new(i32::MAX, i32::MAX), Vec2::new(i32::MIN, i32::MIN)));
    assert!(!breaks_away(Vec2::new(i32::MIN, i32::MAX), Vec2::new(i32::MIN, i32::MAX)));
}

#[test]
fn debris_takes_half_the_velocity_difference() {
    let d = debris_from(link(5, 6, 2_000_001, -3_000_003), Vec2::new(1, -1));
    assert_eq!(d.position, Vec2::new(5, 6));
    assert_eq!(d.impulse, Vec2::new(1_000_000, -1_500_001));
    assert_eq!(d.ttl_ms, 5000);
}

#[test]
fn only_fast_links_spawn_debris() {
    let links = vec![
        link(0, 0, 10, 10),
        link(1, 2, 3_000_000, 0),
        link(3, 4, 1_000_000, 0),
        link(5, 6, 0, -2_000_000),
    ];
    let debris = woosh_chain(Vec2::new(0, 0), &links);
    assert_eq!(debris.len(), 2);
    assert_eq!(debris[0].position, Vec2::new(1, 2));
    assert_eq!(debris[0].impulse, Vec2::new(1_500_000, 0));
    assert_eq!(debris[1].position, Vec2::new(5, 6));
    assert_eq!(debris[1].impulse, Vec2::new(0, -1_000_000));
}

#[test]
fn no_links_no_debris() {
    assert!(woosh_chain(Vec2::new(0, 0), &Vec::new()).is_empty());
}

#[test]
fn sustained_speed_spawns_debris_every_tick() {
    let links = vec![link(0, 0, 2_000_000, 0)];
    for _ in 0..3 {
        assert_eq!(woosh_chain(Vec2::new(0, 0), &links).len(), 1);
    }
}
