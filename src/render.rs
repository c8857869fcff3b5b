//! Drawing remote players into the emulated frame, by the same rules the
//! picture unit applies to the program's own sprites.
use vstd::prelude::*;

use crate::data::{MovementData, PlayerData, SpriteData};
use crate::interface::InterfaceData;
use crate::presence::Entry;
use crate::host::{Gpu, Memory, SCREEN_HEIGHT, SCREEN_WIDTH};
use crate::interface::{get_tile_id_addr, tile_id_addr};
use crate::values::{Direction, MAX_MAP_TILE};

verus! {

/// Width and height of a player sprite in pixels.
pub const SPRITE_SIZE: usize = 16;

/// Number of pixels in one frame of a sprite sheet.
pub const SPRITE_PIXELS: usize = 256;

/// Sprite flag: the background shows through where its priority is set.
pub const FLAG_BEHIND_BG: u8 = 0x80;

/// Sprite flag: mirror vertically.
pub const FLAG_FLIP_Y: u8 = 0x40;

/// Sprite flag: the sheet's frame is drawn as stored rather than mirrored.
pub const FLAG_FLIP_X: u8 = 0x20;

/// Sprite flag: use the second sprite palette.
pub const FLAG_PALETTE_1: u8 = 0x10;

/// Whether no pixel of the 16x16 sprite at `sd` falls on the screen.
pub open spec fn off_screen(sd: SpriteData) -> bool {
    sd.y >= SCREEN_HEIGHT || sd.y + 16 <= 0 || sd.x >= SCREEN_WIDTH || sd.x + 16 <= 0
}

/// Whether a menu or text box tile covers the top-left of the sprite at `sd`.
pub open spec fn occluded(ram: Seq<u8>, sd: SpriteData) -> bool {
    let a = tile_id_addr(sd.x as u8, sd.y as u8) as int;
    ram[a] > MAX_MAP_TILE || ram[a + 1] > MAX_MAP_TILE || ram[a - 20] > MAX_MAP_TILE || ram[a
        - 19] > MAX_MAP_TILE
}

/// The shade that palette `pal` gives colour `c` (0 to 3).
pub open spec fn shade(pal: u8, c: u8) -> u8 {
    if c == 0 {
        pal & 3
    } else if c == 1 {
        (pal >> 2u8) & 3
    } else if c == 2 {
        (pal >> 4u8) & 3
    } else {
        (pal >> 6u8) & 3
    }
}

/// The palette that the flags of `sd` select.
pub open spec fn sprite_palette(gpu: Gpu, sd: SpriteData) -> u8 {
    if sd.flags & FLAG_PALETTE_1 == 0 {
        gpu.obp0
    } else {
        gpu.obp1
    }
}

/// The colour of pixel `(dx, dy)` of the sprite at `sd`, after mirroring.
pub open spec fn sprite_color(sheet: Seq<u8>, sd: SpriteData, dy: int, dx: int) -> u8 {
    let ty = if sd.flags & FLAG_FLIP_Y == 0 {
        dy
    } else {
        15 - dy
    };
    let tx = if sd.flags & FLAG_FLIP_X == 0 {
        15 - dx
    } else {
        dx
    };
    sheet[sd.index * 256 + ty * 16 + tx]
}

/// Whether a sprite pixel of colour `color` covers a background pixel of
/// priority `prio`: transparent pixels never do, and a background with
/// priority hides sprites that respect it.
pub open spec fn pixel_shows(color: u8, prio: u8, flags: u8) -> bool {
    color != 0 && (flags & FLAG_BEHIND_BG == 0 || prio == 0) && prio <= 3
}

/// Whether screen pixel `(r, c)` lies under the sprite at `sd`.
pub open spec fn in_sprite(sd: SpriteData, r: int, c: int) -> bool {
    0 <= r - sd.y < 16 && 0 <= c - sd.x < 16
}

/// The shade of screen pixel `(r, c)` of frame `fb`, with background
/// priorities `prio`, once the sprite at `sd` is drawn with palette `pal`.
pub open spec fn composited(
    fb: Seq<u8>,
    prio: Seq<u8>,
    pal: u8,
    sheet: Seq<u8>,
    sd: SpriteData,
    r: int,
    c: int,
) -> u8 {
    let i = r * SCREEN_WIDTH + c;
    if in_sprite(sd, r, c) {
        let color = sprite_color(sheet, sd, r - sd.y, c - sd.x);
        if pixel_shows(color, prio[i], sd.flags) {
            shade(pal, color)
        } else {
            fb[i]
        }
    } else {
        fb[i]
    }
}

/// The screen row of frame position `i`.
pub open spec fn row_of(i: int) -> int {
    i / (SCREEN_WIDTH as int)
}

/// The screen column of frame position `i`.
pub open spec fn col_of(i: int) -> int {
    i % (SCREEN_WIDTH as int)
}

/// Frame `fb` once the sprite at `sd` is drawn with palette `pal`.
pub open spec fn composite_frame(
    fb: Seq<u8>,
    prio: Seq<u8>,
    pal: u8,
    sheet: Seq<u8>,
    sd: SpriteData,
) -> Seq<u8> {
    Seq::new(fb.len(), |i: int| composited(fb, prio, pal, sheet, sd, row_of(i), col_of(i)))
}

/// Whether `sheet` holds frame `index` and only colours 0 to 3.
pub open spec fn valid_sheet(sheet: Seq<u8>, index: usize) -> bool {
    &&& (index + 1) * 256 <= sheet.len()
    &&& forall|i: int| 0 <= i < sheet.len() ==> sheet[i] < 4
}

/// Whether pixel `(r, c)` was drawn by the time the drawing loop finished
/// rows before `row` and columns before `col` of row `row`.
pub open spec fn drawn_by(sd: SpriteData, r: int, c: int, row: int, col: int) -> bool {
    in_sprite(sd, r, c) && (r - sd.y < row || (r - sd.y == row && c - sd.x < col))
}

/// Whether frame position `i` lies under the sprite at `sd` and the
/// sprite's colour there covers the background, whose priorities are `prio`.
pub open spec fn shows_at(prio: Seq<u8>, sheet: Seq<u8>, sd: SpriteData, i: int) -> bool {
    &&& in_sprite(sd, row_of(i), col_of(i))
    &&& pixel_shows(
        sprite_color(sheet, sd, row_of(i) - sd.y, col_of(i) - sd.x),
        prio[i],
        sd.flags,
    )
}

/// Whether some on-screen pixel of the sprite at `sd` covers the background.
pub open spec fn sprite_shows(prio: Seq<u8>, sheet: Seq<u8>, sd: SpriteData) -> bool {
    exists|i: int| 0 <= i < prio.len() && #[trigger] shows_at(prio, sheet, sd, i)
}

/// Whether the sprite was drawn at position `i` by the time the drawing loop
/// finished rows before `row` and columns before `col` of row `row`.
pub open spec fn shown_by(
    prio: Seq<u8>,
    sheet: Seq<u8>,
    sd: SpriteData,
    i: int,
    row: int,
    col: int,
) -> bool {
    drawn_by(sd, row_of(i), col_of(i), row, col) && shows_at(prio, sheet, sd, i)
}

proof fn lemma_pixel_coords(i: int)
    requires
        0 <= i < SCREEN_WIDTH * SCREEN_HEIGHT,
    ensures
        0 <= row_of(i) < SCREEN_HEIGHT,
        0 <= col_of(i) < SCREEN_WIDTH,
        i == (row_of(i)) * SCREEN_WIDTH + col_of(i),
{
    let w = SCREEN_WIDTH as int;
    vstd::arithmetic::div_mod::lemma_fundamental_div_mod(i, w);
    let q = i / w;
    let m = i % w;
    assert(0 <= m < w);
    assert(i == w * q + m);
    assert(0 <= q < SCREEN_HEIGHT) by (nonlinear_arith)
        requires
            i == w * q + m,
            0 <= m < w,
            w == 160,
            0 <= i < 160 * 144,
    ;
}

proof fn lemma_pixel_at(r: int, c: int)
    requires
        0 <= r,
        0 <= c < SCREEN_WIDTH,
    ensures
        row_of(r * SCREEN_WIDTH + c) == r,
        col_of(r * SCREEN_WIDTH + c) == c,
{
    vstd::arithmetic::div_mod::lemma_fundamental_div_mod_converse(
        r * SCREEN_WIDTH + c,
        SCREEN_WIDTH as int,
        r,
        c,
    );
}

/// The shade palette `pal` gives colour `c`.
fn palette_lookup(pal: u8, c: u8) -> (r: u8)
    requires
        c < 4,
    ensures
        r == shade(pal, c),
{
    if c == 0 {
        pal & 3
    } else if c == 1 {
        (pal >> 2u8) & 3
    } else if c == 2 {
        (pal >> 4u8) & 3
    } else {
        (pal >> 6u8) & 3
    }
}

/// Draws a 16x16 sprite into the frame unless it is off screen or under a
/// menu. Returns whether any pixel was drawn.
#[verifier::rlimit(80)]
pub fn render_sprite(mem: &mut Memory, spritesheet: &Vec<u8>, sprite_data: &SpriteData) -> (r:
    bool)
    requires
        old(mem).wf(),
        !(off_screen(*sprite_data) || occluded(old(mem).ram@, *sprite_data)) ==> valid_sheet(
            spritesheet@,
            sprite_data.index,
        ),
    ensures
        final(mem).wf(),
        r == (!(off_screen(*sprite_data) || occluded(old(mem).ram@, *sprite_data))
            && sprite_shows(old(mem).gpu.pixel_priorities@, spritesheet@, *sprite_data)),
        final(mem).ram == old(mem).ram,
        final(mem).rom == old(mem).rom,
        final(mem).gpu.pixel_priorities == old(mem).gpu.pixel_priorities,
        final(mem).gpu.obp0 == old(mem).gpu.obp0,
        final(mem).gpu.obp1 == old(mem).gpu.obp1,
        !(off_screen(*sprite_data) || occluded(old(mem).ram@, *sprite_data))
            ==> final(mem).gpu.framebuffer@ == composite_frame(
            old(mem).gpu.framebuffer@,
            old(mem).gpu.pixel_priorities@,
            sprite_palette(old(mem).gpu, *sprite_data),
            spritesheet@,
            *sprite_data,
        ),
        off_screen(*sprite_data) || occluded(old(mem).ram@, *sprite_data)
            ==> final(mem).gpu.framebuffer@ == old(mem).gpu.framebuffer@,
{
    let sd = *sprite_data;
    let h: isize = 144;
    let w: isize = 160;
    assert(h == SCREEN_HEIGHT && w == SCREEN_WIDTH);
    if sd.y >= h || sd.y + 16 <= 0 || sd.x >= w || sd.x + 16 <= 0 {
        return false;
    }
    let tile_addr = get_tile_id_addr(sd.x as u8, sd.y as u8);
    if mem.lb(tile_addr) > MAX_MAP_TILE || mem.lb(tile_addr + 1) > MAX_MAP_TILE || mem.lb(
        tile_addr - 20,
    ) > MAX_MAP_TILE || mem.lb(tile_addr - 19) > MAX_MAP_TILE {
        return false;
    }
    let ghost g0 = mem.gpu;
    let ghost sheet = spritesheet@;
    let sheet_len = spritesheet.len();
    assert(sd.index * 256 + 256 <= sheet_len);
    let start: usize = sd.index * SPRITE_PIXELS;
    let flags = sd.flags;
    let palette = if flags & FLAG_PALETTE_1 == 0 {
        mem.gpu.obp0
    } else {
        mem.gpu.obp1
    };
    let ghost prio = g0.pixel_priorities@;
    let mut drawn = false;
    let mut dy: isize = 0;
    while dy < 16
        invariant
            0 <= dy <= 16,
            prio == g0.pixel_priorities@,
            prio.len() == SCREEN_WIDTH * SCREEN_HEIGHT,
            drawn == exists|i: int|
                0 <= i < SCREEN_WIDTH * SCREEN_HEIGHT && #[trigger] shown_by(
                    prio,
                    sheet,
                    sd,
                    i,
                    dy as int,
                    0,
                ),
            h == 144 && w == 160,
            mem.wf(),
            mem.ram == old(mem).ram,
            mem.rom == old(mem).rom,
            mem.gpu.pixel_priorities == g0.pixel_priorities,
            mem.gpu.obp0 == g0.obp0,
            mem.gpu.obp1 == g0.obp1,
            g0 == old(mem).gpu,
            sd == *sprite_data,
            !off_screen(sd),
            valid_sheet(sheet, sd.index),
            sheet == spritesheet@,
            start == sd.index * 256,
            flags == sd.flags,
            palette == sprite_palette(g0, sd),
            forall|i: int|
                0 <= i < mem.gpu.framebuffer@.len() ==> #[trigger] mem.gpu.framebuffer@[i] == if drawn_by(
                    sd,
                    row_of(i),
                    col_of(i),
                    dy as int,
                    0,
                ) {
                    composited(g0.framebuffer@, g0.pixel_priorities@, palette, sheet, sd, row_of(i), col_of(i))
                } else {
                    g0.framebuffer@[i]
                },
        decreases 16 - dy,
    {
        let py = sd.y + dy;
        let ty: isize = if flags & FLAG_FLIP_Y == 0 { dy } else { 15 - dy };
        let mut dx: isize = 0;
        while dx < 16
            invariant
                0 <= dy < 16,
                0 <= dx <= 16,
                h == 144 && w == 160,
                prio == g0.pixel_priorities@,
                prio.len() == SCREEN_WIDTH * SCREEN_HEIGHT,
                drawn == exists|i: int|
                    0 <= i < SCREEN_WIDTH * SCREEN_HEIGHT && #[trigger] shown_by(
                        prio,
                        sheet,
                        sd,
                        i,
                        dy as int,
                        dx as int,
                    ),
                py == sd.y + dy,
                ty as int == (if sd.flags & FLAG_FLIP_Y == 0 { dy as int } else { 15 - dy }),
                mem.wf(),
                mem.ram == old(mem).ram,
                mem.rom == old(mem).rom,
                mem.gpu.pixel_priorities == g0.pixel_priorities,
                mem.gpu.obp0 == g0.obp0,
                mem.gpu.obp1 == g0.obp1,
                g0 == old(mem).gpu,
                sd == *sprite_data,
                !off_screen(sd),
                valid_sheet(sheet, sd.index),
                sheet == spritesheet@,
                start == sd.index * 256,
                flags == sd.flags,
                palette == sprite_palette(g0, sd),
                forall|i: int|
                    0 <= i < mem.gpu.framebuffer@.len() ==> #[trigger] mem.gpu.framebuffer@[i]
                        == if drawn_by(
                        sd,
                        row_of(i),
                        col_of(i),
                        dy as int,
                        dx as int,
                    ) {
                        composited(g0.framebuffer@, g0.pixel_priorities@, palette, sheet, sd, row_of(i), col_of(i))
                    } else {
                        g0.framebuffer@[i]
                    },
            decreases 16 - dx,
        {
            let px = sd.x + dx;
            let ghost prev = mem.gpu.framebuffer@;
            let ghost drawn_before = drawn;
            let ghost mut hit = false;
            let ghost mut hit_pos: int = 0;
            if 0 <= py && py < h && 0 <= px && px < w {
                let pos: usize = (py as usize) * SCREEN_WIDTH + px as usize;
                assert(pos == py * 160 + px);
                assert(py * 160 + px < 160 * 144) by (nonlinear_arith)
                    requires
                        0 <= py < 144,
                        0 <= px < 160,
                ;
                let tx: isize = if flags & FLAG_FLIP_X == 0 { 15 - dx } else { dx };
                let color_id = spritesheet[start + (ty as usize) * 16 + tx as usize];
                let px_priority = mem.gpu.pixel_priorities[pos];
                if color_id != 0 && (flags & FLAG_BEHIND_BG == 0 || px_priority == 0) && px_priority
                    <= 3 {
                    let color = palette_lookup(palette, color_id);
                    mem.gpu.framebuffer.set(pos, color);
                    drawn = true;
                }
                proof {
                    lemma_pixel_at(py as int, px as int);
                    hit_pos = pos as int;
                    hit = shows_at(prio, sheet, sd, pos as int);
                    assert(hit == (color_id != 0 && (flags & FLAG_BEHIND_BG == 0 || px_priority
                        == 0) && px_priority <= 3));
                }
            }
            proof {
                assert(drawn == (drawn_before || hit));
                assert forall|i: int| 0 <= i < SCREEN_WIDTH * SCREEN_HEIGHT implies #[trigger] shown_by(
                    prio,
                    sheet,
                    sd,
                    i,
                    dy as int,
                    dx + 1,
                ) == (shown_by(prio, sheet, sd, i, dy as int, dx as int) || (hit && i
                    == hit_pos)) by {
                    lemma_pixel_coords(i);
                    if 0 <= py < 144 && 0 <= px < 160 {
                        lemma_pixel_at(py as int, px as int);
                    }
                }
                if drawn {
                    if drawn_before {
                        let j = choose|j: int|
                            0 <= j < SCREEN_WIDTH * SCREEN_HEIGHT && #[trigger] shown_by(
                                prio,
                                sheet,
                                sd,
                                j,
                                dy as int,
                                dx as int,
                            );
                        assert(shown_by(prio, sheet, sd, j, dy as int, dx + 1));
                    } else {
                        assert(shown_by(prio, sheet, sd, hit_pos, dy as int, dx + 1));
                    }
                } else {
                    assert forall|i: int| 0 <= i < SCREEN_WIDTH * SCREEN_HEIGHT implies !#[trigger] shown_by(
                        prio,
                        sheet,
                        sd,
                        i,
                        dy as int,
                        dx + 1,
                    ) by {
                        assert(!shown_by(prio, sheet, sd, i, dy as int, dx as int));
                    }
                }
            }
            proof {
                assert forall|i: int| 0 <= i < mem.gpu.framebuffer@.len() implies #[trigger] mem.gpu.framebuffer@[i]
                    == if drawn_by(
                    sd,
                    row_of(i),
                    col_of(i),
                    dy as int,
                    dx + 1,
                ) {
                    composited(g0.framebuffer@, g0.pixel_priorities@, palette, sheet, sd, row_of(i), col_of(i))
                } else {
                    g0.framebuffer@[i]
                } by {
                    lemma_pixel_coords(i);
                    if row_of(i) == py && col_of(i) == px {
                        assert(i == py * 160 + px);
                    } else if 0 <= py < 144 && 0 <= px < 160 {
                        lemma_pixel_at(py as int, px as int);
                        assert(i != py * 160 + px);
                    }
                }
            }
            dx += 1;
        }
        proof {
            assert forall|i: int| 0 <= i < SCREEN_WIDTH * SCREEN_HEIGHT implies #[trigger] shown_by(
                prio,
                sheet,
                sd,
                i,
                dy + 1,
                0,
            ) == shown_by(prio, sheet, sd, i, dy as int, 16) by {}
            if drawn {
                let j = choose|j: int|
                    0 <= j < SCREEN_WIDTH * SCREEN_HEIGHT && #[trigger] shown_by(
                        prio,
                        sheet,
                        sd,
                        j,
                        dy as int,
                        16,
                    );
                assert(shown_by(prio, sheet, sd, j, dy + 1, 0));
            }
        }
        dy += 1;
    }
    proof {
        assert(mem.gpu.framebuffer@ =~= composite_frame(g0.framebuffer@, g0.pixel_priorities@, palette, sheet, sd)) by {
            assert forall|i: int| 0 <= i < mem.gpu.framebuffer@.len() implies mem.gpu.framebuffer@[i]
                == composite_frame(g0.framebuffer@, g0.pixel_priorities@, palette, sheet, sd)[i] by {
                lemma_pixel_coords(i);
            }
        }
        assert forall|i: int| 0 <= i < SCREEN_WIDTH * SCREEN_HEIGHT implies #[trigger] shown_by(
            prio,
            sheet,
            sd,
            i,
            16,
            0,
        ) == shows_at(prio, sheet, sd, i) by {}
        if drawn {
            let j = choose|j: int|
                0 <= j < SCREEN_WIDTH * SCREEN_HEIGHT && #[trigger] shown_by(prio, sheet, sd, j, 16, 0);
            assert(shows_at(prio, sheet, sd, j));
        } else {
            assert forall|i: int| 0 <= i < prio.len() implies !#[trigger] shows_at(prio, sheet, sd, i) by {
                assert(!shown_by(prio, sheet, sd, i, 16, 0));
            }
        }
    }
    drawn
}

/// Pixels a walking player has moved from its tile: 2 per tick of the
/// countdown since the step began, and none while standing.
pub open spec fn walk_offset_spec(walk_counter: u8) -> int {
    if walk_counter == 0 {
        0
    } else {
        (8 - walk_counter) * 2
    }
}

/// The pixel offset of a player between tiles.
pub fn walk_offset(walk_counter: u8) -> (r: i32)
    ensures
        r == walk_offset_spec(walk_counter),
{
    if walk_counter == 0 {
        0
    } else {
        (8 - walk_counter as i32) * 2
    }
}

/// The offset grows by two pixels for each tick of a step, so it falls as
/// the countdown rises, and it is zero once the step is done.
pub proof fn lemma_walk_offset(a: u8, b: u8)
    ensures
        walk_offset_spec(0) == 0,
        1 <= a <= 8 ==> walk_offset_spec(a) == (8 - a) * 2 && 0 <= walk_offset_spec(a) <= 14,
        1 <= a < b <= 8 ==> walk_offset_spec(a) > walk_offset_spec(b),
{
}

/// The position of a player in map pixels.
pub open spec fn player_position(m: MovementData) -> (int, int) {
    let x = m.map_x * 16;
    let y = m.map_y * 16;
    let o = walk_offset_spec(m.walk_counter);
    match m.direction {
        Direction::Down => (x, y + o),
        Direction::Up => (x, y - o),
        Direction::Left => (x - o, y),
        Direction::Right => (x + o, y),
    }
}

/// Where the local player is drawn: the screen centre, less the sprite's
/// half width and the program's own vertical offset.
pub const VIEW_ANCHOR_X: i32 = 64;
pub const VIEW_ANCHOR_Y: i32 = 60;

/// The screen position of `other` as seen by `me`.
pub open spec fn draw_position(me: MovementData, other: MovementData) -> (int, int) {
    let (sx, sy) = player_position(me);
    let (ox, oy) = player_position(other);
    (ox - sx + VIEW_ANCHOR_X, oy - sy + VIEW_ANCHOR_Y)
}

/// The frame of the player sprite sheet for a player: the facing's base
/// frame, plus three on the second half of each 8-tick step cycle.
pub open spec fn sprite_frame(m: MovementData) -> int {
    let base: int = match m.direction {
        Direction::Down => 0,
        Direction::Up => 1,
        Direction::Left => 2,
        Direction::Right => 2,
    };
    base + if (m.walk_counter / 4) % 2 == 1 {
        3int
    } else {
        0
    }
}

/// The sprite flags for a player: the background may cover it, and the
/// frame is flipped when it faces right.
pub open spec fn sprite_flags(m: MovementData) -> u8 {
    if m.direction == Direction::Right {
        FLAG_BEHIND_BG | FLAG_FLIP_X
    } else {
        FLAG_BEHIND_BG
    }
}

/// The position of a player in map pixels.
pub fn get_player_position(player: &PlayerData) -> (r: (i32, i32))
    ensures
        r.0 == player_position(player.movement_data).0,
        r.1 == player_position(player.movement_data).1,
{
    let x = player.movement_data.map_x as i32 * 16;
    let y = player.movement_data.map_y as i32 * 16;
    let offset = walk_offset(player.movement_data.walk_counter);
    match player.movement_data.direction {
        Direction::Down => (x, y + offset),
        Direction::Up => (x, y - offset),
        Direction::Left => (x - offset, y),
        Direction::Right => (x + offset, y),
    }
}

/// The screen position at which to draw `other_player`, relative to the
/// local player's own position on the screen.
pub fn get_player_draw_position(self_player: &PlayerData, other_player: &PlayerData) -> (r: (
    i32,
    i32,
))
    ensures
        r.0 == draw_position(self_player.movement_data, other_player.movement_data).0,
        r.1 == draw_position(self_player.movement_data, other_player.movement_data).1,
{
    let (self_x, self_y) = get_player_position(self_player);
    let (other_x, other_y) = get_player_position(other_player);
    (other_x - self_x + VIEW_ANCHOR_X, other_y - self_y + VIEW_ANCHOR_Y)
}

/// The sprite frame and flags for drawing a player.
pub fn get_sprite_index_and_flags(player: &PlayerData) -> (r: (isize, u8))
    ensures
        r.0 == sprite_frame(player.movement_data),
        r.1 == sprite_flags(player.movement_data),
{
    let (mut index, mut flags): (isize, u8) = match player.movement_data.direction {
        Direction::Down => (0, 0x00),
        Direction::Up => (1, 0x00),
        Direction::Left => (2, 0x00),
        Direction::Right => (2, FLAG_FLIP_X),
    };
    flags = flags | FLAG_BEHIND_BG;
    let phase = player.movement_data.walk_counter / 4;
    assert(phase & 1 == phase % 2) by (bit_vector);
    if phase & 1 == 1 {
        index = index + 3;
    }
    assert(FLAG_FLIP_X | FLAG_BEHIND_BG == FLAG_BEHIND_BG | FLAG_FLIP_X) by (bit_vector);
    assert(0u8 | FLAG_BEHIND_BG == FLAG_BEHIND_BG) by (bit_vector);
    (index, flags)
}

/// Every player is drawn with one of six frames; the frame is flipped
/// exactly when the player faces right; a player in the first half of a
/// step cycle shows its facing's base frame (0, 1 or 2), and one in the
/// second half that frame plus three.
pub proof fn lemma_sprite_frame(m: MovementData)
    ensures
        0 <= sprite_frame(m) <= 5,
        (m.walk_counter / 4) % 2 == 0 ==> 0 <= sprite_frame(m) <= 2,
        (m.walk_counter / 4) % 2 == 1 ==> 3 <= sprite_frame(m) <= 5,
        (sprite_flags(m) & FLAG_FLIP_X != 0) <==> m.direction == Direction::Right,
        sprite_flags(m) & FLAG_BEHIND_BG != 0,
{
    assert((FLAG_BEHIND_BG | FLAG_FLIP_X) & FLAG_FLIP_X != 0) by (bit_vector);
    assert(FLAG_BEHIND_BG & FLAG_FLIP_X == 0) by (bit_vector);
    assert((FLAG_BEHIND_BG | FLAG_FLIP_X) & FLAG_BEHIND_BG != 0) by (bit_vector);
    assert(FLAG_BEHIND_BG & FLAG_BEHIND_BG != 0) by (bit_vector);
}

/// The sprite with which a remote player moving as `other` is drawn for a
/// local player moving as `me`.
pub open spec fn remote_sprite(me: MovementData, other: MovementData) -> SpriteData {
    SpriteData {
        x: draw_position(me, other).0 as isize,
        y: draw_position(me, other).1 as isize,
        index: sprite_frame(other) as usize,
        flags: sprite_flags(other),
    }
}

/// Frame `fb` after the sprite at `sd` was drawn, or left as it is when the
/// sprite is off screen or under a menu.
pub open spec fn drawn_frame(
    fb: Seq<u8>,
    prio: Seq<u8>,
    obp0: u8,
    obp1: u8,
    ram: Seq<u8>,
    sheet: Seq<u8>,
    sd: SpriteData,
) -> Seq<u8> {
    if off_screen(sd) || occluded(ram, sd) {
        fb
    } else {
        let pal = if sd.flags & FLAG_PALETTE_1 == 0 {
            obp0
        } else {
            obp1
        };
        composite_frame(fb, prio, pal, sheet, sd)
    }
}

/// Frame `fb` after every player of `s` on the map of `me` was drawn, in
/// table order.
pub open spec fn frame_with_players(
    fb: Seq<u8>,
    prio: Seq<u8>,
    obp0: u8,
    obp1: u8,
    ram: Seq<u8>,
    sheet: Seq<u8>,
    me: MovementData,
    s: Seq<Entry>,
) -> Seq<u8>
    decreases s.len(),
{
    if s.len() == 0 {
        fb
    } else {
        let prev = frame_with_players(fb, prio, obp0, obp1, ram, sheet, me, s.drop_last());
        let other = s.last().1.movement_data;
        if other.map_id == me.map_id {
            drawn_frame(prev, prio, obp0, obp1, ram, sheet, remote_sprite(me, other))
        } else {
            prev
        }
    }
}

/// Draws every remote player on the local player's map into the frame,
/// using the six frames of `sheet`.
pub fn draw_other_players(
    interface_data: &InterfaceData,
    self_data: &PlayerData,
    sheet: &Vec<u8>,
    mem: &mut Memory,
)
    requires
        old(mem).wf(),
        valid_sheet(sheet@, 5),
    ensures
        final(mem).wf(),
        final(mem).ram == old(mem).ram,
        final(mem).rom == old(mem).rom,
        final(mem).gpu.pixel_priorities == old(mem).gpu.pixel_priorities,
        final(mem).gpu.obp0 == old(mem).gpu.obp0,
        final(mem).gpu.obp1 == old(mem).gpu.obp1,
        final(mem).gpu.framebuffer@ == frame_with_players(
            old(mem).gpu.framebuffer@,
            old(mem).gpu.pixel_priorities@,
            old(mem).gpu.obp0,
            old(mem).gpu.obp1,
            old(mem).ram@,
            sheet@,
            self_data.movement_data,
            interface_data.players@,
        ),
{
    let ghost s = interface_data.players@;
    let ghost g0 = mem.gpu;
    let n = interface_data.players.len();
    let mut i: usize = 0;
    while i < n
        invariant
            0 <= i <= n,
            n == s.len(),
            s == interface_data.players@,
            g0 == old(mem).gpu,
            valid_sheet(sheet@, 5),
            mem.wf(),
            mem.ram == old(mem).ram,
            mem.rom == old(mem).rom,
            mem.gpu.pixel_priorities == g0.pixel_priorities,
            mem.gpu.obp0 == g0.obp0,
            mem.gpu.obp1 == g0.obp1,
            mem.gpu.framebuffer@ == frame_with_players(
                g0.framebuffer@,
                g0.pixel_priorities@,
                g0.obp0,
                g0.obp1,
                old(mem).ram@,
                sheet@,
                self_data.movement_data,
                s.subrange(0, i as int),
            ),
        decreases n - i,
    {
        let player = interface_data.players.player_at(i);
        assert(s.subrange(0, i + 1).drop_last() =~= s.subrange(0, i as int));
        if player.is_visible_to(self_data) {
            let (x, y) = get_player_draw_position(self_data, player);
            let (index, flags) = get_sprite_index_and_flags(player);
            proof {
                lemma_sprite_frame(player.movement_data);
            }
            let sprite_data = SpriteData { x: x as isize, y: y as isize, index: index as usize, flags };
            assert(sprite_data == remote_sprite(self_data.movement_data, player.movement_data));
            assert(valid_sheet(sheet@, sprite_data.index));
            render_sprite(mem, sheet, &sprite_data);
        }
        i += 1;
    }
    assert(s.subrange(0, n as int) =~= s);
}

} // verus!
