use gb_mmo::extract::{battle_data, movement_data, player_name, player_party};
use gb_mmo::host::Memory;
use gb_mmo::offsets;
use gb_mmo::values::Direction;
use gb_mmo::data::PokemonData;

#[test]
fn name_stops_at_the_terminator() {
    let mut mem = Memory::new(vec![]);
    let start = offsets::PLAYER_NAME_START as usize;
    mem.ram[start..start + 4].copy_from_slice(&[0x91, 0x84, 0x83, 0x50]);
    assert_eq!(player_name(&mem), vec![0x91, 0x84, 0x83]);
}

#[test]
fn name_is_at_most_eleven_bytes() {
    let mut mem = Memory::new(vec![]);
    let start = offsets::PLAYER_NAME_START as usize;
    for i in 0..20 {
        mem.ram[start + i] = 0x80;
    }
    assert_eq!(player_name(&mem).len(), 11);
}

#[test]
fn movement_reads_position_and_facing() {
    let mut mem = Memory::new(vec![]);
    mem.ram[offsets::MAP_ID as usize] = 4;
    mem.ram[offsets::MAP_X as usize] = 7;
    mem.ram[offsets::MAP_Y as usize] = 8;
    mem.ram[offsets::PLAYER_DIR as usize] = 0xC;
    mem.ram[offsets::WALK_COUNTER as usize] = 6;
    let m = movement_data(&mem);
    assert_eq!((m.map_id, m.map_x, m.map_y, m.direction, m.walk_counter), (4, 7, 8, Direction::Right, 6));
    mem.ram[offsets::PLAYER_DIR as usize] = 0x3;
    assert_eq!(movement_data(&mem).direction, Direction::Down);
}

#[test]
fn battle_record_has_fixed_size() {
    let mut mem = Memory::new(vec![]);
    mem.ram[offsets::PLAYER_BATTLE_DATA_START as usize + 1] = 0x55;
    let b = battle_data(&mem);
    assert_eq!(b.data.len(), 0x194);
    assert_eq!(b.data[1], 0x55);
}

#[test]
fn party_members_are_read_field_by_field() {
    let mut mem = Memory::new(vec![]);
    mem.ram[offsets::PARTY_COUNT as usize] = 0;
    let a = offsets::PARTY_POKE_2 as usize;
    mem.ram[a] = 0x70;
    mem.ram[a + 1] = 0x34;
    mem.ram[a + 2] = 0x12;
    mem.ram[a + 33] = 10;
    let party = player_party(&mem);
    assert_eq!(party.num_pokemon, 0);
    assert_eq!(party.pokemon.1.species, 0x70);
    assert_eq!(party.pokemon.1.hp, 0x1234);
    assert_eq!(party.pokemon.1.level, 10);
    assert_eq!(party.pokemon.0.species, 0);
}

#[test]
fn test_pokemon_is_a_weedle() {
    let p = PokemonData::test_data();
    assert_eq!(p.species, 0x70);
    assert_eq!(p.level, 10);
    assert_eq!(p.moves, (0x01, 0, 0, 0));
    assert_eq!(p.ot_id, 0x1234);
}

#[test]
fn sprite_sheet_is_decoded_from_two_bit_planes() {
    let mut bank = vec![0u8; 0x4000];
    let base = 0x0180;
    // First stored tile (the right half of frame 0, top rows): row 0 has
    // low bits 1000_0001 and high bits 0000_0001.
    bank[base] = 0b1000_0001;
    bank[base + 1] = 0b0000_0001;
    // Second stored tile (left half): row 0 all colour 2.
    bank[base + 16] = 0x00;
    bank[base + 17] = 0xFF;
    let mut rom = vec![vec![0u8; 0x4000]; 5];
    rom.push(bank);
    let mem = Memory::new(rom);
    let sheet = gb_mmo::extract::extract_sprite(&mem, 5, 0x4180);
    assert_eq!(sheet.len(), 1536);
    // Right half of row 0 comes from the first tile; pixel x reads bit x.
    assert_eq!(sheet[8], 3);
    assert_eq!(sheet[9], 0);
    assert_eq!(sheet[15], 1);
    // Left half of row 0 comes from the second tile.
    assert_eq!(&sheet[0..8], &[2; 8]);
    assert_eq!(sheet[16], 0);
    assert!(sheet.iter().all(|&c| c < 4));
}

#[test]
fn one_bit_texture_uses_the_first_colour_for_set_bits() {
    let mut bank = vec![0u8; 0x4000];
    // Tile 0, row 0: leftmost pixel set. Tile 1, row 0: rightmost pixel set.
    bank[0x100] = 0b1000_0000;
    bank[0x108] = 0b0000_0001;
    let mut rom = vec![vec![]; 4];
    rom.push(bank);
    let mem = Memory::new(rom);
    let black = [0, 0, 0, 255];
    let white = [255, 255, 255, 255];
    let tex = gb_mmo::extract::extract_texture(
        &mem,
        4,
        0x4100,
        16,
        8,
        gb_mmo::extract::TextureFormat::Bpp1,
        &vec![black, white],
    );
    assert_eq!(tex.len(), 16 * 8 * 4);
    assert_eq!(&tex[0..4], &black);
    assert_eq!(&tex[4..8], &white);
    assert_eq!(&tex[15 * 4..16 * 4], &black);
    assert_eq!(&tex[14 * 4..15 * 4], &white);
    assert_eq!(&tex[16 * 4..17 * 4], &white);
}

#[test]
fn two_bit_texture_looks_up_the_palette() {
    let mut bank = vec![0u8; 0x4000];
    bank[0x200] = 0b1000_0000;
    bank[0x201] = 0b1100_0000;
    let mut rom = vec![vec![]; 4];
    rom.push(bank);
    let mem = Memory::new(rom);
    let palette = vec![[0, 0, 0, 0], [1, 1, 1, 1], [2, 2, 2, 2], [3, 3, 3, 3]];
    let tex = gb_mmo::extract::extract_texture(
        &mem,
        4,
        0x4200,
        10,
        8,
        gb_mmo::extract::TextureFormat::Bpp2,
        &palette,
    );
    assert_eq!(tex.len(), 10 * 8 * 4);
    assert_eq!(&tex[0..4], &[3, 3, 3, 3]);
    assert_eq!(&tex[4..8], &[2, 2, 2, 2]);
    assert_eq!(&tex[8..12], &[0, 0, 0, 0]);
    // Columns past the last whole tile stay blank.
    assert_eq!(&tex[8 * 4..10 * 4], &[0; 8]);
}

#[test]
fn trainer_party_is_written_to_the_cartridge() {
    let mut rom = vec![vec![0u8; 0x4000]; 15];
    rom[14][0x221D + 10] = 0xAA;
    let mut mem = Memory::new(rom);
    let mon = PokemonData::test_data();
    let party = gb_mmo::data::Party { num_pokemon: 2, pokemon: (mon, mon, mon, mon, mon, mon) };
    gb_mmo::interface::load_trainer_party(party, &mut mem);
    assert_eq!(&mem.rom[14][0x221D..0x221D + 6], &[0xFF, 10, 0x70, 10, 0x70, 0]);
    assert_eq!(mem.rom[14][0x221D + 10], 0xAA);
    assert!(mem.rom[13].iter().all(|&b| b == 0));
}
