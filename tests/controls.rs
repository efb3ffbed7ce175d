use chain_rig::camera::camera_follow_player;
use chain_rig::geometry::Vec2;
use chain_rig::input::{key_controls, keyboard_and_mouse_system, player_movement, KeyState};

fn keys(left: bool, right: bool, jump_held: bool, jump_pressed: bool) -> KeyState {
    KeyState { left, right, jump_held, jump_pressed }
}

#[test]
fn keyboard_impulses_add_up() {
    assert_eq!(keyboard_and_mouse_system(keys(true, false, false, false)), Vec2::new(-50_000, 0));
    assert_eq!(keyboard_and_mouse_system(keys(false, true, false, true)), Vec2::new(50_000, 400_000));
    assert_eq!(keyboard_and_mouse_system(keys(true, true, true, false)), Vec2::new(0, 0));
}

#[test]
fn walk_command_follows_keys() {
    let c = key_controls(keys(false, true, false, false));
    assert_eq!(c.desired_velocity, Vec2::new(4_000_000, 0));
    assert_eq!(c.float_height, 17_000);
    assert_eq!(c.acceleration, 600_000);
    assert_eq!(c.air_acceleration, 600_000);
    assert_eq!(c.jump_height, None);
    let c = key_controls(keys(true, false, true, false));
    assert_eq!(c.desired_velocity, Vec2::new(-4_000_000, 0));
    assert_eq!(c.jump_height, Some(320_000));
    let c = key_controls(keys(true, true, false, false));
    assert_eq!(c.desired_velocity, Vec2::new(0, 0));
}

#[test]
fn mouse_motion_flips_vertical_axis() {
    assert_eq!(player_movement(Vec2::new(3, 4)), Vec2::new(6, -8));
    assert_eq!(player_movement(Vec2::new(-10, -1)), Vec2::new(-20, 2));
}

#[test]
fn camera_centres_on_players_bounding_box() {
    let players = vec![Vec2::new(0, 10), Vec2::new(100, -30), Vec2::new(40, 70)];
    assert_eq!(camera_follow_player(&players), Some(Vec2::new(50, 20)));
    assert_eq!(camera_follow_player(&vec![Vec2::new(-7, 9)]), Some(Vec2::new(-7, 9)));
    assert_eq!(camera_follow_player(&vec![Vec2::new(-3, 0), Vec2::new(0, 0)]), Some(Vec2::new(-2, 0)));
}

#[test]
fn camera_without_players_stays_put() {
    assert_eq!(camera_follow_player(&Vec::new()), None);
}

