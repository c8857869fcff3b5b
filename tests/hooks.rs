use gb_mmo::checkpoints::Checkpoints;
use gb_mmo::data::{MovementData, PlayerData};
use gb_mmo::hacks::{display_text, on_tick, sprite_check, sprite_update_tracker};
use gb_mmo::host::{Cpu, Memory};
use gb_mmo::interface::{get_tile_id_addr, DataState, InterfaceData, InterfaceState, NetworkRequest};
use gb_mmo::offsets;
use gb_mmo::text::{encode_str, END_MSG, TERMINATOR, TEXT_START};
use gb_mmo::values::Direction;

fn remote(map_id: u8, x: u8, y: u8, direction: Direction, walk_counter: u8) -> PlayerData {
    PlayerData {
        name: vec![0x81, 0x8E, 0x81],
        movement_data: MovementData { map_id, map_x: x, map_y: y, direction, walk_counter },
    }
}

fn local_at(mem: &mut Memory, map_id: u8, x: u8, y: u8, dir: u8, walk: u8) {
    mem.ram[offsets::MAP_ID as usize] = map_id;
    mem.ram[offsets::MAP_X as usize] = x;
    mem.ram[offsets::MAP_Y as usize] = y;
    mem.ram[offsets::PLAYER_DIR as usize] = dir;
    mem.ram[offsets::WALK_COUNTER as usize] = walk;
}

#[test]
fn walking_into_a_standing_remote_player_is_blocked() {
    let mut mem = Memory::new(vec![]);
    local_at(&mut mem, 1, 5, 5, 0x00, 4);
    let mut data = InterfaceData::new();
    data.players.insert(7, remote(1, 5, 6, Direction::Down, 0));
    let cpu = Cpu { pc: offsets::SPRITE_CHECK_EXIT_2, a: 0 };
    sprite_check(&Checkpoints::pokemon_red(), &cpu, &mut mem, &mut data);
    assert_eq!(mem.ram[offsets::SPRITE_INDEX as usize], 0xFF);
    assert_eq!(data.last_interaction, 7);
    assert_eq!(data.sprite_id_state, DataState::Hacked);
}

#[test]
fn remote_player_on_another_map_does_not_block() {
    let mut mem = Memory::new(vec![]);
    local_at(&mut mem, 1, 5, 5, 0x00, 0);
    let mut data = InterfaceData::new();
    data.players.insert(7, remote(2, 5, 6, Direction::Down, 0));
    let cpu = Cpu { pc: offsets::SPRITE_CHECK_EXIT_2, a: 0 };
    sprite_check(&Checkpoints::pokemon_red(), &cpu, &mut mem, &mut data);
    assert_eq!(mem.ram[offsets::SPRITE_INDEX as usize], 0);
    assert_eq!(data.sprite_id_state, DataState::Normal);
}

#[test]
fn remote_player_walking_into_the_tile_blocks() {
    let mut mem = Memory::new(vec![]);
    local_at(&mut mem, 3, 5, 5, 0x0C, 0);
    let mut data = InterfaceData::new();
    data.players.insert(1, remote(3, 7, 5, Direction::Left, 5));
    let cpu = Cpu { pc: offsets::SPRITE_CHECK_EXIT_2, a: 0 };
    sprite_check(&Checkpoints::pokemon_red(), &cpu, &mut mem, &mut data);
    assert_eq!(data.last_interaction, 1);
    assert_eq!(mem.ram[offsets::SPRITE_INDEX as usize], 0xFF);
}

#[test]
fn first_matching_player_wins() {
    let mut mem = Memory::new(vec![]);
    local_at(&mut mem, 1, 5, 5, 0x04, 0);
    let mut data = InterfaceData::new();
    data.players.insert(3, remote(1, 9, 9, Direction::Down, 0));
    data.players.insert(4, remote(1, 5, 4, Direction::Down, 0));
    data.players.insert(5, remote(1, 5, 3, Direction::Down, 2));
    let cpu = Cpu { pc: offsets::SPRITE_CHECK_EXIT_2, a: 0 };
    sprite_check(&Checkpoints::pokemon_red(), &cpu, &mut mem, &mut data);
    assert_eq!(data.last_interaction, 4);
}

#[test]
fn collision_exit_one_needs_no_native_sprites() {
    let mut mem = Memory::new(vec![]);
    local_at(&mut mem, 1, 5, 5, 0x00, 0);
    mem.ram[offsets::NUM_SPRITES as usize] = 2;
    let mut data = InterfaceData::new();
    data.players.insert(7, remote(1, 5, 6, Direction::Down, 0));
    let cpu = Cpu { pc: offsets::SPRITE_CHECK_EXIT_1, a: 0 };
    sprite_check(&Checkpoints::pokemon_red(), &cpu, &mut mem, &mut data);
    assert_eq!(data.sprite_id_state, DataState::Normal);
    mem.ram[offsets::NUM_SPRITES as usize] = 0;
    sprite_check(&Checkpoints::pokemon_red(), &cpu, &mut mem, &mut data);
    assert_eq!(data.sprite_id_state, DataState::Hacked);
}

#[test]
fn overworld_loop_resets_collision_state() {
    let mut mem = Memory::new(vec![]);
    let mut data = InterfaceData::new();
    data.sprite_id_state = DataState::Hacked;
    let cpu = Cpu { pc: offsets::OVERWORLD_LOOP_START, a: 0 };
    sprite_check(&Checkpoints::pokemon_red(), &cpu, &mut mem, &mut data);
    assert_eq!(data.sprite_id_state, DataState::Normal);
}

#[test]
fn dialogue_is_hijacked_after_a_collision() {
    let mut mem = Memory::new(vec![]);
    let mut data = InterfaceData::new();
    data.sprite_id_state = DataState::Hacked;
    data.last_interaction = 9;
    let mut cpu = Cpu { pc: offsets::DISPLAY_TEXT_ID_AFTER_INIT, a: 0 };
    display_text(&Checkpoints::pokemon_red(), &mut cpu, &mut mem, &mut data);
    assert_eq!(cpu.pc, offsets::DISPLAY_TEXT_SETUP_DONE);
    assert_eq!(mem.ram[offsets::FRAME_COUNTER as usize], 30);
    assert_eq!(data.text_state, DataState::Hacked);
    assert_eq!(data.network_request, NetworkRequest::Battle(9));
    assert_eq!(data.state, InterfaceState::Waiting);
    let mut expected = vec![TEXT_START];
    expected.extend(encode_str("PLAYER has nothing\nto say."));
    expected.push(END_MSG);
    expected.push(TERMINATOR);
    assert_eq!(data.current_message, expected);
}

#[test]
fn dialogue_is_left_alone_without_a_collision() {
    let mut mem = Memory::new(vec![]);
    let mut data = InterfaceData::new();
    let mut cpu = Cpu { pc: offsets::DISPLAY_TEXT_ID_AFTER_INIT, a: 0 };
    display_text(&Checkpoints::pokemon_red(), &mut cpu, &mut mem, &mut data);
    assert_eq!(cpu.pc, offsets::DISPLAY_TEXT_ID_AFTER_INIT);
    assert_eq!(data.text_state, DataState::Normal);
    assert!(data.current_message.is_empty());
}

#[test]
fn text_processor_is_fed_queued_characters() {
    let mut mem = Memory::new(vec![]);
    let mut data = InterfaceData::new();
    data.text_state = DataState::Hacked;
    data.current_message = vec![0x80, 0x81];
    let mut cpu = Cpu { pc: offsets::GET_NEXT_CHAR_1, a: 0 };
    display_text(&Checkpoints::pokemon_red(), &mut cpu, &mut mem, &mut data);
    assert_eq!(cpu.a, 0x80);
    assert_eq!(cpu.pc, offsets::GET_NEXT_CHAR_1 + 1);
    let mut cpu = Cpu { pc: offsets::GET_NEXT_CHAR_2, a: 0 };
    display_text(&Checkpoints::pokemon_red(), &mut cpu, &mut mem, &mut data);
    assert_eq!(cpu.a, 0x81);
    let mut cpu = Cpu { pc: offsets::GET_NEXT_CHAR_2, a: 0 };
    display_text(&Checkpoints::pokemon_red(), &mut cpu, &mut mem, &mut data);
    assert_eq!(cpu.a, TERMINATOR);
    assert_eq!(cpu.pc, offsets::GET_NEXT_CHAR_2 + 1);
}

#[test]
fn leaving_the_text_processor_restores_normal_text() {
    let mut mem = Memory::new(vec![]);
    let mut data = InterfaceData::new();
    data.text_state = DataState::Hacked;
    let mut cpu = Cpu { pc: offsets::TEXT_PROCESSOR_END, a: 0 };
    display_text(&Checkpoints::pokemon_red(), &mut cpu, &mut mem, &mut data);
    assert_eq!(data.text_state, DataState::Normal);
}

#[test]
fn sprite_tracker_follows_the_program() {
    let mut mem = Memory::new(vec![]);
    let mut data = InterfaceData::new();
    mem.ram[offsets::SPRITES_ENABLED as usize] = 1;
    sprite_update_tracker(&Checkpoints::pokemon_red(), &Cpu { pc: offsets::UPDATE_SPRITES, a: 0 }, &mem, &mut data);
    assert!(data.sprites_enabled());
    sprite_update_tracker(&Checkpoints::pokemon_red(), &Cpu { pc: offsets::CLEAR_SPRITES, a: 0 }, &mem, &mut data);
    assert!(!data.sprites_enabled());
}

#[test]
fn a_tick_runs_every_hook() {
    let mut mem = Memory::new(vec![]);
    local_at(&mut mem, 1, 5, 5, 0x00, 0);
    let mut data = InterfaceData::new();
    data.players.insert(2, remote(1, 5, 6, Direction::Up, 0));
    let mut cpu = Cpu { pc: offsets::SPRITE_CHECK_EXIT_2, a: 0 };
    on_tick(&Checkpoints::pokemon_red(), &mut cpu, &mut mem, &mut data);
    assert_eq!(data.last_interaction, 2);
    let mut cpu = Cpu { pc: offsets::DISPLAY_TEXT_ID_AFTER_INIT, a: 0 };
    on_tick(&Checkpoints::pokemon_red(), &mut cpu, &mut mem, &mut data);
    assert_eq!(data.network_request, NetworkRequest::Battle(2));
}

#[test]
fn tile_id_addresses() {
    assert_eq!(get_tile_id_addr(0, 0), 0xC3A0 + 0x14);
    assert_eq!(get_tile_id_addr(64, 60), 0xC3A0 + 20 * 8 + 8 + 0x14);
    assert_eq!(get_tile_id_addr(8, 12), 0xC3A0 + 20 * 2 + 1 + 0x14);
    assert_eq!(get_tile_id_addr(255, 252), 0xC3A0 + 31 + 0x14);
}

#[test]
fn message_box_is_framed() {
    let mut data = InterfaceData::new();
    data.create_message_box("Hi");
    assert_eq!(data.current_message, vec![0x00, 0x87, 0xA8, 0x57, 0x50]);
}

#[test]
fn checkpoint_roles_must_not_share_an_address() {
    let cp = Checkpoints::pokemon_red();
    assert!(cp.distinct());
    let clash = Checkpoints { clear_sprites: cp.update_sprites, ..cp };
    assert!(!clash.distinct());
}

#[test]
fn hooks_follow_the_configured_table() {
    let cp = Checkpoints { sprite_check_exit_2: 0x1234, ..Checkpoints::pokemon_red() };
    let mut mem = Memory::new(vec![]);
    local_at(&mut mem, 1, 5, 5, 0x00, 0);
    let mut data = InterfaceData::new();
    data.players.insert(7, remote(1, 5, 6, Direction::Down, 0));
    sprite_check(&cp, &Cpu { pc: offsets::SPRITE_CHECK_EXIT_2, a: 0 }, &mut mem, &mut data);
    assert_eq!(data.sprite_id_state, DataState::Normal);
    sprite_check(&cp, &Cpu { pc: 0x1234, a: 0 }, &mut mem, &mut data);
    assert_eq!(data.sprite_id_state, DataState::Hacked);
}
