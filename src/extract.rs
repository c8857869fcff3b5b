//! Reading the local player's state out of the emulated machine's memory.
use vstd::prelude::*;

use crate::data::{BattleData, MovementData, Party, PokemonData, BATTLE_DATA_SIZE};
use crate::host::{word_at, Memory, ADDRESS_SPACE};
use crate::offsets;
use crate::text::TERMINATOR;
use crate::values::{direction_from_code, Direction};

verus! {

/// Longest name, in text bytes, that the game stores.
pub const MAX_NAME_LEN: usize = 11;

/// The movement that memory `ram` holds for the local player; an unknown
/// facing code reads as facing down.
pub open spec fn movement_in(ram: Seq<u8>) -> MovementData {
    MovementData {
        map_id: ram[offsets::MAP_ID as int],
        map_x: ram[offsets::MAP_X as int],
        map_y: ram[offsets::MAP_Y as int],
        direction: match direction_from_code(ram[offsets::PLAYER_DIR as int] as int) {
            Some(d) => d,
            None => Direction::Down,
        },
        walk_counter: ram[offsets::WALK_COUNTER as int],
    }
}

/// Whether `name` is the name stored at `start` of `ram`: the bytes up to the
/// first terminator, at most 11 of them.
pub open spec fn is_name_at(ram: Seq<u8>, start: int, name: Seq<u8>) -> bool {
    &&& name.len() <= MAX_NAME_LEN
    &&& name == ram.subrange(start, start + name.len())
    &&& forall|i: int| 0 <= i < name.len() ==> name[i] != TERMINATOR
    &&& (name.len() == MAX_NAME_LEN || ram[start + name.len()] == TERMINATOR)
}

/// The battle record that memory `ram` holds for the local player.
pub open spec fn battle_record_in(ram: Seq<u8>) -> Seq<u8> {
    ram.subrange(
        offsets::PLAYER_BATTLE_DATA_START as int,
        offsets::PLAYER_BATTLE_DATA_START + BATTLE_DATA_SIZE,
    )
}

/// Reads the local player's movement.
pub fn movement_data(mem: &Memory) -> (r: MovementData)
    requires
        mem.wf(),
    ensures
        r == movement_in(mem.ram@),
{
    let direction = match Direction::from_u8(mem.lb(offsets::PLAYER_DIR)) {
        Some(d) => d,
        None => Direction::Down,
    };
    MovementData {
        map_id: mem.lb(offsets::MAP_ID),
        map_x: mem.lb(offsets::MAP_X),
        map_y: mem.lb(offsets::MAP_Y),
        direction,
        walk_counter: mem.lb(offsets::WALK_COUNTER),
    }
}

/// Reads the local player's name.
pub fn player_name(mem: &Memory) -> (r: Vec<u8>)
    requires
        mem.wf(),
    ensures
        is_name_at(mem.ram@, offsets::PLAYER_NAME_START as int, r@),
{
    let ghost start = offsets::PLAYER_NAME_START as int;
    let mut name: Vec<u8> = Vec::new();
    let mut offset = offsets::PLAYER_NAME_START;
    let mut i: usize = 0;
    while i < MAX_NAME_LEN
        invariant
            mem.wf(),
            0 <= i <= MAX_NAME_LEN,
            name@.len() == i,
            start == offsets::PLAYER_NAME_START as int,
            offset == start + i,
            name@ == mem.ram@.subrange(start, start + i),
            forall|k: int| 0 <= k < i ==> name@[k] != TERMINATOR,
        decreases MAX_NAME_LEN - i,
    {
        let val = mem.lb(offset);
        if val == TERMINATOR {
            return name;
        }
        name.push(val);
        assert(name@ =~= mem.ram@.subrange(start, start + i + 1));
        offset += 1;
        i += 1;
    }
    name
}

/// Reads the local player's battle record.
pub fn battle_data(mem: &Memory) -> (r: BattleData)
    requires
        mem.wf(),
    ensures
        r.data@ == battle_record_in(mem.ram@),
{
    let base = offsets::PLAYER_BATTLE_DATA_START;
    let mut data: Vec<u8> = Vec::new();
    let mut i: u16 = 0;
    while (i as usize) < BATTLE_DATA_SIZE
        invariant
            mem.wf(),
            0 <= i <= BATTLE_DATA_SIZE,
            base == offsets::PLAYER_BATTLE_DATA_START,
            data@ == mem.ram@.subrange(base as int, base + i),
        decreases BATTLE_DATA_SIZE - i,
    {
        data.push(mem.lb(base + i));
        assert(data@ =~= mem.ram@.subrange(base as int, base + i + 1));
        i += 1;
    }
    BattleData { data }
}

/// The party member that memory `ram` holds at `addr`.
pub open spec fn pokemon_at(ram: Seq<u8>, addr: u16) -> PokemonData {
    let b = |k: int| ram[addr + k];
    let w = |k: int| word_at(ram, (addr + k) as u16);
    PokemonData {
        species: b(0),
        hp: w(1),
        unknown: b(3),
        status: b(4),
        type1: b(5),
        type2: b(6),
        catch_rate: b(7),
        moves: (b(8), b(9), b(10), b(11)),
        ot_id: w(12),
        exp: (b(14), b(15), b(16)),
        hp_ev: w(17),
        attack_ev: w(19),
        defense_ev: w(21),
        speed_ev: w(23),
        special_ev: w(25),
        individual_values: (b(27), b(28)),
        move_pp: (b(29), b(30), b(31), b(32)),
        level: b(33),
        max_hp: w(34),
        attack: w(36),
        defense: w(38),
        speed: w(40),
        special: w(42),
    }
}

/// Reads the party member stored at `addr`.
fn pokemon_data(mem: &Memory, addr: u16) -> (r: PokemonData)
    requires
        mem.wf(),
        addr + 44 <= ADDRESS_SPACE,
    ensures
        r == pokemon_at(mem.ram@, addr),
{
    PokemonData {
        species: mem.lb(addr + 0),
        hp: mem.lw(addr + 1),
        unknown: mem.lb(addr + 3),
        status: mem.lb(addr + 4),
        type1: mem.lb(addr + 5),
        type2: mem.lb(addr + 6),
        catch_rate: mem.lb(addr + 7),
        moves: (mem.lb(addr + 8), mem.lb(addr + 9), mem.lb(addr + 10), mem.lb(addr + 11)),
        ot_id: mem.lw(addr + 12),
        exp: (mem.lb(addr + 14), mem.lb(addr + 15), mem.lb(addr + 16)),
        hp_ev: mem.lw(addr + 17),
        attack_ev: mem.lw(addr + 19),
        defense_ev: mem.lw(addr + 21),
        speed_ev: mem.lw(addr + 23),
        special_ev: mem.lw(addr + 25),
        individual_values: (mem.lb(addr + 27), mem.lb(addr + 28)),
        move_pp: (mem.lb(addr + 29), mem.lb(addr + 30), mem.lb(addr + 31), mem.lb(addr + 32)),
        level: mem.lb(addr + 33),
        max_hp: mem.lw(addr + 34),
        attack: mem.lw(addr + 36),
        defense: mem.lw(addr + 38),
        speed: mem.lw(addr + 40),
        special: mem.lw(addr + 42),
    }
}

/// Reads the local player's party.
pub fn player_party(mem: &Memory) -> (r: Party)
    requires
        mem.wf(),
    ensures
        r.num_pokemon == mem.ram@[offsets::PARTY_COUNT as int],
        r.pokemon.0 == pokemon_at(mem.ram@, offsets::PARTY_POKE_1),
        r.pokemon.1 == pokemon_at(mem.ram@, offsets::PARTY_POKE_2),
        r.pokemon.2 == pokemon_at(mem.ram@, offsets::PARTY_POKE_3),
        r.pokemon.3 == pokemon_at(mem.ram@, offsets::PARTY_POKE_4),
        r.pokemon.4 == pokemon_at(mem.ram@, offsets::PARTY_POKE_5),
        r.pokemon.5 == pokemon_at(mem.ram@, offsets::PARTY_POKE_6),
{
    Party {
        num_pokemon: mem.lb(offsets::PARTY_COUNT),
        pokemon: (
            pokemon_data(mem, offsets::PARTY_POKE_1),
            pokemon_data(mem, offsets::PARTY_POKE_2),
            pokemon_data(mem, offsets::PARTY_POKE_3),
            pokemon_data(mem, offsets::PARTY_POKE_4),
            pokemon_data(mem, offsets::PARTY_POKE_5),
            pokemon_data(mem, offsets::PARTY_POKE_6),
        ),
    }
}

/// Pixels in the six 16x16 frames of a player sprite sheet.
pub const SHEET_PIXELS: usize = 6 * 256;

/// The colour (0 to 3) of pixel `bit` of a 2bpp tile row whose low bits are
/// in `low` and high bits in `high`.
pub open spec fn color_id(low: u8, high: u8, bit: u8) -> u8 {
    ((low >> bit) & 1) | (((high >> bit) & 1) << 1u8)
}

fn get_color_id(low: u8, high: u8, bit: u8) -> (r: u8)
    requires
        bit < 8,
    ensures
        r == color_id(low, high, bit),
        r < 4,
{
    assert(((low >> bit) & 1) | (((high >> bit) & 1) << 1u8) < 4) by (bit_vector);
    ((low >> bit) & 1) | (((high >> bit) & 1) << 1u8)
}

/// Pixel `i` of the sprite sheet whose tiles start at `base` of `bank`. The
/// sheet is 16 pixels wide; each frame is two tiles wide and two high, and
/// each frame stores its right tile first.
pub open spec fn sheet_pixel(bank: Seq<u8>, base: int, i: int) -> u8 {
    let row = i / 16;
    let col = i % 16;
    let tile = (1 - col / 8) + 2 * (row / 8);
    let off = base + 16 * tile + 2 * (row % 8);
    color_id(bank[off], bank[off + 1], (col % 8) as u8)
}

/// The offset within its bank of a cartridge address.
pub open spec fn bank_offset(addr: u16) -> int {
    (addr & 0x3FFF) as int
}

/// Reads the six-frame sprite sheet stored at `addr` of cartridge bank `bank`.
pub fn extract_sprite(mem: &Memory, bank: usize, addr: u16) -> (r: Vec<u8>)
    requires
        bank < mem.rom@.len(),
        bank_offset(addr) + 384 <= mem.rom@[bank as int]@.len(),
    ensures
        r@.len() == SHEET_PIXELS,
        forall|i: int| 0 <= i < SHEET_PIXELS ==> #[trigger] r@[i] == sheet_pixel(
            mem.rom@[bank as int]@,
            bank_offset(addr),
            i,
        ),
        forall|i: int| 0 <= i < r@.len() ==> #[trigger] r@[i] < 4,
{
    let rom = &mem.rom[bank];
    let base = (addr & 0x3FFF) as usize;
    let mut buffer: Vec<u8> = Vec::new();
    let mut i: usize = 0;
    while i < SHEET_PIXELS
        invariant
            0 <= i <= SHEET_PIXELS,
            rom@ == mem.rom@[bank as int]@,
            base == bank_offset(addr),
            base + 384 <= rom@.len(),
            buffer@.len() == i,
            forall|j: int| 0 <= j < i ==> #[trigger] buffer@[j] == sheet_pixel(rom@, base as int, j),
            forall|j: int| 0 <= j < i ==> #[trigger] buffer@[j] < 4,
        decreases SHEET_PIXELS - i,
    {
        let row = i / 16;
        let col = i % 16;
        let tile = (1 - col / 8) + 2 * (row / 8);
        let off = base + 16 * tile + 2 * (row % 8);
        let c = get_color_id(rom[off], rom[off + 1], (col % 8) as u8);
        buffer.push(c);
        i += 1;
    }
    buffer
}

/// The sprite sheet drawn for remote players: the player's own sprite.
pub fn default_sprite(mem: &Memory) -> (r: Vec<u8>)
    requires
        offsets::PLAYER_SPRITE_BANK < mem.rom@.len(),
        bank_offset(offsets::PLAYER_SPRITE_ADDR) + 384 <= mem.rom@[offsets::PLAYER_SPRITE_BANK as int]@.len(),
    ensures
        r@.len() == SHEET_PIXELS,
        forall|i: int| 0 <= i < SHEET_PIXELS ==> #[trigger] r@[i] == sheet_pixel(
            mem.rom@[offsets::PLAYER_SPRITE_BANK as int]@,
            bank_offset(offsets::PLAYER_SPRITE_ADDR),
            i,
        ),
        forall|i: int| 0 <= i < r@.len() ==> #[trigger] r@[i] < 4,
{
    extract_sprite(mem, offsets::PLAYER_SPRITE_BANK, offsets::PLAYER_SPRITE_ADDR)
}

/// How the tiles of a texture are stored in the cartridge.
#[derive(Clone, Copy, Debug, PartialEq, Eq, Structural)]
pub enum TextureFormat {
    /// One byte per tile row: set bits take the first palette colour.
    Bpp1,
    /// Two bytes per tile row, the low and the high bit planes.
    Bpp2,
}

/// Bytes per tile row of a format.
pub open spec fn row_bytes(format: TextureFormat) -> int {
    match format {
        TextureFormat::Bpp1 => 1,
        TextureFormat::Bpp2 => 2,
    }
}

impl TextureFormat {
    pub fn bytes_per_row(&self) -> (r: usize)
        ensures
            r == row_bytes(*self),
    {
        match self {
            TextureFormat::Bpp1 => 1,
            TextureFormat::Bpp2 => 2,
        }
    }
}

/// An RGBA colour.
pub type Color = [u8; 4];

/// The colour of texture pixel `(px, py)`. The texture is laid out in 8x8
/// tiles, row after row of tiles; pixels right of or below the last whole
/// tile stay blank.
pub open spec fn texel(
    bank: Seq<u8>,
    base: int,
    width: int,
    height: int,
    format: TextureFormat,
    palette: Seq<Color>,
    px: int,
    py: int,
) -> Color {
    let ntx = width / 8;
    let nty = height / 8;
    if px < ntx * 8 && py < nty * 8 {
        let tile = (py / 8) * ntx + px / 8;
        let off = base + (tile * 8 + py % 8) * row_bytes(format);
        let bit = (7 - px % 8) as u8;
        match format {
            TextureFormat::Bpp1 => if (bank[off] >> bit) & 1 == 1 {
                palette[0]
            } else {
                palette[1]
            },
            TextureFormat::Bpp2 => palette[color_id(bank[off], bank[off + 1], bit) as int],
        }
    } else {
        [0u8, 0u8, 0u8, 0u8]
    }
}

/// Whether a bank of `len` bytes holds the tiles of a texture that starts at
/// `base`.
pub open spec fn texture_fits(len: int, base: int, width: int, height: int, format: TextureFormat) -> bool {
    let tiles = (width / 8) * (height / 8);
    tiles == 0 || match format {
        TextureFormat::Bpp1 => base + 8 * tiles + 1 <= len,
        TextureFormat::Bpp2 => base + 16 * tiles <= len,
    }
}

proof fn lemma_tile_in_range(px: int, py: int, ntx: int, nty: int)
    requires
        0 <= px < ntx * 8,
        0 <= py < nty * 8,
    ensures
        0 <= (py / 8) * ntx + px / 8 < ntx * nty,
        0 <= ((py / 8) * ntx + px / 8) * 8 + py % 8 < 8 * (ntx * nty),
{
    assert(0 <= px / 8 < ntx);
    assert(0 <= py / 8 < nty);
    let a = py / 8;
    let b = px / 8;
    assert(0 <= a * ntx + b < ntx * nty) by (nonlinear_arith)
        requires
            0 <= a < nty,
            0 <= b < ntx,
    ;
    assert(0 <= a * ntx) by (nonlinear_arith)
        requires
            0 <= a,
            0 <= ntx,
    ;
}

proof fn lemma_pixel_of(p: int, width: int, height: int)
    requires
        0 <= p < width * height,
        width > 0,
    ensures
        0 <= p % width < width,
        0 <= p / width < height,
{
    vstd::arithmetic::div_mod::lemma_fundamental_div_mod(p, width);
    let q = p / width;
    let m = p % width;
    assert(0 <= q < height) by (nonlinear_arith)
        requires
            p == width * q + m,
            0 <= m < width,
            0 <= p < width * height,
            width > 0,
    ;
}

/// Reads a `width` x `height` texture stored as 8x8 tiles at `addr` of
/// cartridge bank `bank`, as RGBA bytes row after row, taking colours from
/// `palette`.
pub fn extract_texture(
    mem: &Memory,
    bank: usize,
    addr: u16,
    width: usize,
    height: usize,
    format: TextureFormat,
    palette: &Vec<Color>,
) -> (r: Vec<u8>)
    requires
        bank < mem.rom@.len(),
        width * height * 4 <= usize::MAX,
        texture_fits(mem.rom@[bank as int]@.len() as int, bank_offset(addr), width as int, height as int, format),
        palette@.len() >= if format == TextureFormat::Bpp1 { 2int } else { 4int },
    ensures
        r@.len() == width * height * 4,
        forall|p: int, c: int|
            0 <= p < width * height && 0 <= c < 4 ==> #[trigger] r@[4 * p + c] == texel(
                mem.rom@[bank as int]@,
                bank_offset(addr),
                width as int,
                height as int,
                format,
                palette@,
                p % width as int,
                p / width as int,
            )@[c],
{
    let rom = &mem.rom[bank];
    let base = (addr & 0x3FFF) as usize;
    let ntx = width / 8;
    let nty = height / 8;
    let fmt = format.bytes_per_row();
    let total = width * height;
    let rom_len = rom.len();
    let mut out: Vec<u8> = Vec::new();
    let mut p: usize = 0;
    assert(0 <= ntx * nty <= (width / 8) * (height / 8)) by (nonlinear_arith)
        requires ntx == width / 8, nty == height / 8;
    while p < total
        invariant
            0 <= p <= total,
            total == width * height,
            total * 4 <= usize::MAX,
            rom@ == mem.rom@[bank as int]@,
            base == bank_offset(addr),
            ntx == width / 8,
            nty == height / 8,
            fmt == row_bytes(format),
            texture_fits(rom@.len() as int, base as int, width as int, height as int, format),
            rom_len == rom@.len(),
            palette@.len() >= if format == TextureFormat::Bpp1 { 2int } else { 4int },
            out@.len() == 4 * p,
            forall|q: int, c: int|
                0 <= q < p && 0 <= c < 4 ==> #[trigger] out@[4 * q + c] == texel(
                    rom@,
                    base as int,
                    width as int,
                    height as int,
                    format,
                    palette@,
                    q % width as int,
                    q / width as int,
                )@[c],
        decreases total - p,
    {
        assert(width > 0) by (nonlinear_arith)
            requires p < total, total == width * height;
        proof {
            lemma_pixel_of(p as int, width as int, height as int);
        }
        let px = p % width;
        let py = p / width;
        let color: Color = if px < ntx * 8 && py < nty * 8 {
            proof {
                lemma_tile_in_range(px as int, py as int, ntx as int, nty as int);
                assert(ntx * nty <= total) by (nonlinear_arith)
                    requires ntx == width / 8, nty == height / 8, total == width * height;
                let t = (py / 8) * ntx + px / 8;
                assert((py / 8) * ntx <= t);
                let o = t * 8 + py % 8;
                assert(o * fmt <= (8 * (ntx * nty) - 1) * fmt) by (nonlinear_arith)
                    requires o < 8 * (ntx * nty), fmt >= 1;
                assert(ntx * nty > 0);
                assert(base + (8 * (ntx * nty) - 1) * fmt + 1 < rom_len);
                assert(t * 8 <= o);
            }
            let tile = (py / 8) * ntx + px / 8;
            let off = base + (tile * 8 + py % 8) * fmt;
            let bit = (7 - px % 8) as u8;
            match format {
                TextureFormat::Bpp1 => {
                    if (rom[off] >> bit) & 1 == 1 {
                        palette[0]
                    } else {
                        palette[1]
                    }
                },
                TextureFormat::Bpp2 => {
                    let id = get_color_id(rom[off], rom[off + 1], bit);
                    palette[id as usize]
                },
            }
        } else {
            [0u8, 0u8, 0u8, 0u8]
        };
        assert(color == texel(rom@, base as int, width as int, height as int, format, palette@, px as int, py as int));
        out.push(color[0]);
        out.push(color[1]);
        out.push(color[2]);
        out.push(color[3]);
        assert forall|q: int, c: int| 0 <= q < p + 1 && 0 <= c < 4 implies #[trigger] out@[4 * q + c] == texel(
            rom@,
            base as int,
            width as int,
            height as int,
            format,
            palette@,
            q % width as int,
            q / width as int,
        )@[c] by {
            if q == p {
                assert(out@[4 * q + c] == color@[c]);
            }
        }
        p += 1;
    }
    out
}

} // verus!
