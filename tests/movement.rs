use gb_mmo::data::{MovementData, PlayerData};
use gb_mmo::render::{get_player_position, get_sprite_index_and_flags, walk_offset};
use gb_mmo::values::Direction;

fn player(x: u8, y: u8, direction: Direction, walk_counter: u8) -> PlayerData {
    PlayerData {
        name: vec![0x80, 0x81],
        movement_data: MovementData { map_id: 1, map_x: x, map_y: y, direction, walk_counter },
    }
}

#[test]
fn walk_offset_is_zero_when_standing() {
    assert_eq!(walk_offset(0), 0);
}

#[test]
fn walk_offset_grows_through_a_step() {
    let expected = [(8u8, 0), (7, 2), (6, 4), (5, 6), (4, 8), (3, 10), (2, 12), (1, 14)];
    for (phase, offset) in expected {
        assert_eq!(walk_offset(phase), offset);
    }
    for phase in 1u8..8 {
        assert!(walk_offset(phase) > walk_offset(phase + 1));
    }
}

#[test]
fn player_position_moves_against_the_countdown() {
    assert_eq!(get_player_position(&player(5, 5, Direction::Down, 0)), (80, 80));
    assert_eq!(get_player_position(&player(5, 5, Direction::Down, 4)), (80, 88));
    assert_eq!(get_player_position(&player(5, 5, Direction::Up, 6)), (80, 76));
    assert_eq!(get_player_position(&player(5, 5, Direction::Left, 1)), (66, 80));
    assert_eq!(get_player_position(&player(5, 5, Direction::Right, 8)), (80, 80));
}

#[test]
fn sprite_frames_and_flip() {
    assert_eq!(get_sprite_index_and_flags(&player(0, 0, Direction::Down, 0)), (0, 0x80));
    assert_eq!(get_sprite_index_and_flags(&player(0, 0, Direction::Up, 0)), (1, 0x80));
    assert_eq!(get_sprite_index_and_flags(&player(0, 0, Direction::Left, 0)), (2, 0x80));
    assert_eq!(get_sprite_index_and_flags(&player(0, 0, Direction::Right, 0)), (2, 0xA0));
    assert_eq!(get_sprite_index_and_flags(&player(0, 0, Direction::Down, 4)), (3, 0x80));
    assert_eq!(get_sprite_index_and_flags(&player(0, 0, Direction::Up, 5)), (4, 0x80));
    assert_eq!(get_sprite_index_and_flags(&player(0, 0, Direction::Right, 7)), (5, 0xA0));
    assert_eq!(get_sprite_index_and_flags(&player(0, 0, Direction::Left, 8)), (2, 0x80));
}

#[test]
fn sprite_flip_only_when_facing_right() {
    for d in [Direction::Down, Direction::Up, Direction::Left, Direction::Right] {
        for w in 0u8..=8 {
            let (index, flags) = get_sprite_index_and_flags(&player(3, 3, d, w));
            assert!((0..=5).contains(&index));
            assert_eq!(flags & 0x20 != 0, d == Direction::Right);
        }
    }
}

#[test]
fn walking_player_occupies_two_tiles() {
    let p = player(5, 5, Direction::Down, 3);
    let mut count = 0;
    for x in 0u8..=255 {
        for y in 0u8..=255 {
            if p.check_collision(x, y) {
                count += 1;
            }
        }
    }
    assert_eq!(count, 2);
    assert!(p.check_collision(5, 5));
    assert!(p.check_collision(5, 6));
}

#[test]
fn standing_player_occupies_one_tile() {
    let p = player(5, 5, Direction::Left, 0);
    let mut count = 0;
    for x in 0u8..=255 {
        for y in 0u8..=255 {
            if p.check_collision(x, y) {
                count += 1;
            }
        }
    }
    assert_eq!(count, 1);
    assert!(p.check_collision(5, 5));
}

#[test]
fn move_target_steps_in_the_facing_direction() {
    assert_eq!(player(5, 5, Direction::Down, 2).movement_data.move_target(), (5, 6));
    assert_eq!(player(5, 5, Direction::Up, 2).movement_data.move_target(), (5, 4));
    assert_eq!(player(5, 5, Direction::Left, 2).movement_data.move_target(), (4, 5));
    assert_eq!(player(5, 5, Direction::Right, 2).movement_data.move_target(), (6, 5));
    assert_eq!(player(5, 5, Direction::Right, 0).movement_data.move_target(), (5, 5));
    assert_eq!(player(0, 0, Direction::Up, 1).movement_data.move_target(), (0, 255));
}

#[test]
fn visibility_is_by_map() {
    let a = player(1, 1, Direction::Down, 0);
    let mut b = player(9, 9, Direction::Up, 0);
    assert!(a.is_visible_to(&b));
    b.movement_data.map_id = 2;
    assert!(!a.is_visible_to(&b));
}

#[test]
fn direction_codes() {
    assert_eq!(Direction::from_u8(0x0), Some(Direction::Down));
    assert_eq!(Direction::from_u8(0x4), Some(Direction::Up));
    assert_eq!(Direction::from_i64(0x8), Some(Direction::Left));
    assert_eq!(Direction::from_u64(0xC), Some(Direction::Right));
    assert_eq!(Direction::from_u8(0x3), None);
    assert_eq!(Direction::from_i64(-4), None);
    assert_eq!(Direction::from_u64(u64::MAX), None);
    assert_eq!(Direction::Right.code(), 0xC);
}

#[test]
fn new_records_are_blank() {
    let m = MovementData::new();
    assert_eq!(m, MovementData { map_id: 0, map_x: 0, map_y: 0, direction: Direction::Down, walk_counter: 0 });
    let p = PlayerData::new();
    assert!(p.name.is_empty());
    assert_eq!(p.movement_data, m);
}
