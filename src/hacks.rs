//! Hooks that run at checkpoints of the emulated program: they make remote
//! players block the local player, show a message when walked into, and track
//! whether the program draws sprites.
use vstd::prelude::*;

use crate::checkpoints::Checkpoints;
use crate::data::{step_tile, tile_ahead, PlayerData};
use crate::extract::{is_name_at, movement_data, movement_in, player_name};
use crate::render::{draw_other_players, frame_with_players, valid_sheet};
use crate::host::{Cpu, Memory};
use crate::interface::{
    message_box_bytes, DataState, InterfaceData, InterfaceState, InterfaceView, NetworkRequest,
};
use crate::offsets;
use crate::presence::Entry;
use crate::text::TERMINATOR;
use crate::values::Direction;

verus! {

/// The message shown when the local player talks to a remote player.
pub const NOTHING_TO_SAY: &'static str = "PLAYER has nothing\nto say.";

/// The delay that the text routine sets before showing text.
pub const TEXT_DELAY_FRAMES: u8 = 30;

/// The sentinel that tells the collision routine a sprite is in the way.
pub const BLOCKING_SPRITE: u8 = 0xFF;

/// The direction that facing code `code` stands for in the collision
/// routine: every code but down, up and right counts as left.
pub open spec fn facing(code: u8) -> Direction {
    if code == 0x00 {
        Direction::Down
    } else if code == 0x04 {
        Direction::Up
    } else if code == 0x0C {
        Direction::Right
    } else {
        Direction::Left
    }
}

/// The tile that the local player tries to walk into, as memory tells it.
pub open spec fn forward_tile(ram: Seq<u8>) -> (u8, u8) {
    step_tile(
        ram[offsets::MAP_X as int],
        ram[offsets::MAP_Y as int],
        facing(ram[offsets::PLAYER_DIR as int]),
    )
}

/// Whether row `e` of the presence table stands on map `map_id` and
/// occupies tile `t`.
pub open spec fn blocks(e: Entry, map_id: u8, t: (u8, u8)) -> bool {
    e.1.movement_data.map_id == map_id && e.1.movement_data.occupies(t.0, t.1)
}

/// Row `i` is the first row of `s` that blocks tile `t` on map `map_id`.
pub open spec fn first_blocker(s: Seq<Entry>, map_id: u8, t: (u8, u8), i: int) -> bool {
    &&& 0 <= i < s.len()
    &&& blocks(s[i], map_id, t)
    &&& forall|j: int| 0 <= j < i ==> !blocks(#[trigger] s[j], map_id, t)
}

/// Whether the collision routine has reached a point where it found no
/// sprite of its own in the way.
pub open spec fn at_collision_exit(cp: Checkpoints, pc: u16, ram: Seq<u8>) -> bool {
    (pc == cp.sprite_check_exit_1 && ram[offsets::NUM_SPRITES as int] == 0) || pc
        == cp.sprite_check_exit_2
}

/// Memory and hook state after the collision hook ran at `pc`: the state is
/// reset at the start of the overworld loop; where the collision routine
/// found no sprite of its own in the way, the first remote player on the
/// tile ahead blocks the move and becomes the one last interacted with.
pub open spec fn collision_check(cp: Checkpoints, pc: u16, ram: Seq<u8>, d: InterfaceView) -> (
    Seq<u8>,
    InterfaceView,
) {
    let d0 = if pc == cp.overworld_loop_start {
        InterfaceView { sprite_id_state: DataState::Normal, ..d }
    } else {
        d
    };
    let map_id = ram[offsets::MAP_ID as int];
    let t = forward_tile(ram);
    if at_collision_exit(cp, pc, ram) && exists|i: int| first_blocker(d.players, map_id, t, i) {
        let i = choose|i: int| first_blocker(d.players, map_id, t, i);
        (
            ram.update(offsets::SPRITE_INDEX as int, BLOCKING_SPRITE),
            InterfaceView {
                sprite_id_state: DataState::Hacked,
                last_interaction: d.players[i].0,
                ..d0
            },
        )
    } else {
        (ram, d0)
    }
}

/// Resets the collision state at the start of the overworld loop, and makes a
/// remote player on the tile ahead block the local player.
pub fn sprite_check(cp: &Checkpoints, cpu: &Cpu, mem: &mut Memory, data: &mut InterfaceData)
    requires
        old(mem).wf(),
        old(data).wf(),
    ensures
        final(mem).wf(),
        final(data).wf(),
        final(mem).rom == old(mem).rom,
        final(mem).gpu == old(mem).gpu,
        (final(mem).ram@, final(data)@) == collision_check(*cp, cpu.pc, old(mem).ram@, old(data)@),
{
    if cpu.pc == cp.overworld_loop_start {
        data.sprite_id_state = DataState::Normal;
    }
    let ghost d0 = data@;
    if (cpu.pc == cp.sprite_check_exit_1 && mem.lb(offsets::NUM_SPRITES) == 0) || cpu.pc
        == cp.sprite_check_exit_2 {
        let map_id = mem.lb(offsets::MAP_ID);
        let x0 = mem.lb(offsets::MAP_X);
        let y0 = mem.lb(offsets::MAP_Y);
        let code = mem.lb(offsets::PLAYER_DIR);
        let dir = if code == 0x00 {
            Direction::Down
        } else if code == 0x04 {
            Direction::Up
        } else if code == 0x0C {
            Direction::Right
        } else {
            Direction::Left
        };
        let (x, y) = tile_ahead(x0, y0, dir);
        let ghost t = (x, y);
        assert(t == forward_tile(old(mem).ram@));
        let n = data.players.len();
        let mut i: usize = 0;
        while i < n
            invariant
                n == data.players@.len(),
                0 <= i <= n,
                t == (x, y),
                t == forward_tile(old(mem).ram@),
                d0 == (if cpu.pc == cp.overworld_loop_start {
                    InterfaceView { sprite_id_state: DataState::Normal, ..old(data)@ }
                } else {
                    old(data)@
                }),
                at_collision_exit(*cp, cpu.pc, old(mem).ram@),
                map_id == old(mem).ram@[offsets::MAP_ID as int],
                data@ == d0,
                data.wf(),
                mem.ram@ == old(mem).ram@,
                mem.rom == old(mem).rom,
                mem.gpu == old(mem).gpu,
                mem.wf(),
                forall|j: int| 0 <= j < i ==> !blocks(#[trigger] d0.players[j], map_id, t),
            decreases n - i,
        {
            let player = data.players.player_at(i);
            if player.movement_data.map_id == map_id && player.check_collision(x, y) {
                let id = data.players.id_at(i);
                mem.sb(offsets::SPRITE_INDEX, BLOCKING_SPRITE);
                data.sprite_id_state = DataState::Hacked;
                data.last_interaction = id;
                proof {
                    assert(first_blocker(d0.players, map_id, t, i as int));
                    let k = choose|k: int| first_blocker(d0.players, map_id, t, k);
                    if k < i {
                        assert(!blocks(d0.players[k], map_id, t));
                    } else if k > i {
                        assert(!blocks(d0.players[i as int], map_id, t));
                    }
                }
                return;
            }
            i += 1;
        }
        proof {
            assert forall|k: int| !first_blocker(d0.players, map_id, t, k) by {
                if 0 <= k < n {
                    assert(!blocks(d0.players[k], map_id, t));
                }
            }
        }
    }
}

/// Host registers, memory and hook state at one moment.
pub struct HookView {
    pub cpu: Cpu,
    pub ram: Seq<u8>,
    pub data: InterfaceView,
}

/// When the text routine starts for a remote player the collision check
/// flagged: skip the message lookup, set the delay, queue the message and
/// raise a battle request.
pub open spec fn hijack_dialogue(cp: Checkpoints, h: HookView) -> HookView {
    if h.data.sprite_id_state == DataState::Hacked && h.cpu.pc == cp.display_text_id_after_init {
        HookView {
            cpu: Cpu { pc: cp.display_text_setup_done, a: h.cpu.a },
            ram: h.ram.update(offsets::FRAME_COUNTER as int, TEXT_DELAY_FRAMES),
            data: InterfaceView {
                text_state: DataState::Hacked,
                current_message: h.data.current_message + message_box_bytes(NOTHING_TO_SAY@),
                network_request: NetworkRequest::Battle(h.data.last_interaction),
                state: InterfaceState::Waiting,
                ..h.data
            },
        }
    } else {
        h
    }
}

/// When the text processor fetches a character while the text is steered:
/// hand it the next queued byte (a terminator once none is left) and step
/// over the fetch.
pub open spec fn feed_char(cp: Checkpoints, h: HookView) -> HookView {
    if h.data.text_state == DataState::Hacked && (h.cpu.pc == cp.get_next_char_1 || h.cpu.pc
        == cp.get_next_char_2) {
        let q = h.data.current_message;
        HookView {
            cpu: Cpu {
                pc: if h.cpu.pc == 0xFFFF {
                    0
                } else {
                    (h.cpu.pc + 1) as u16
                },
                a: if q.len() > 0 {
                    q[0]
                } else {
                    TERMINATOR
                },
            },
            data: InterfaceView {
                current_message: if q.len() > 0 {
                    q.drop_first()
                } else {
                    q
                },
                ..h.data
            },
            ..h
        }
    } else {
        h
    }
}

/// When the text processor exits, text is read from the program again.
pub open spec fn leave_text(cp: Checkpoints, h: HookView) -> HookView {
    if h.cpu.pc == cp.text_processor_end {
        HookView { data: InterfaceView { text_state: DataState::Normal, ..h.data }, ..h }
    } else {
        h
    }
}

/// Shows a message in place of the program's own when the local player
/// talks to a remote player.
pub fn display_text(cp: &Checkpoints, cpu: &mut Cpu, mem: &mut Memory, data: &mut InterfaceData)
    requires
        old(mem).wf(),
        old(data).wf(),
    ensures
        final(mem).wf(),
        final(data).wf(),
        final(mem).rom == old(mem).rom,
        final(mem).gpu == old(mem).gpu,
        (HookView { cpu: *final(cpu), ram: final(mem).ram@, data: final(data)@ }) == leave_text(
            *cp,
            feed_char(
                *cp,
                hijack_dialogue(
                    *cp,
                    HookView { cpu: *old(cpu), ram: old(mem).ram@, data: old(data)@ },
                ),
            ),
        ),
{
    if data.sprite_id_state == DataState::Hacked && cpu.pc == cp.display_text_id_after_init {
        cpu.jump(cp.display_text_setup_done);
        mem.sb(offsets::FRAME_COUNTER, TEXT_DELAY_FRAMES);
        data.text_state = DataState::Hacked;
        data.create_message_box(NOTHING_TO_SAY);
        data.network_request = NetworkRequest::Battle(data.last_interaction);
        data.state = InterfaceState::Waiting;
    }
    if data.text_state == DataState::Hacked && (cpu.pc == cp.get_next_char_1 || cpu.pc
        == cp.get_next_char_2) {
        if data.current_message.len() > 0 {
            cpu.a = data.current_message.remove(0);
        } else {
            cpu.a = TERMINATOR;
        }
        cpu.pc = if cpu.pc == 0xFFFF { 0 } else { cpu.pc + 1 };
    }
    if cpu.pc == cp.text_processor_end {
        data.text_state = DataState::Normal;
    }
}

/// Hook state after the sprite tracker ran at `pc`.
pub open spec fn track_sprites(cp: Checkpoints, pc: u16, ram: Seq<u8>, d: InterfaceView) -> InterfaceView {
    InterfaceView {
        sprites_enabled: if pc == cp.update_sprites {
            ram[offsets::SPRITES_ENABLED as int] == 0x01
        } else if pc == cp.clear_sprites {
            false
        } else {
            d.sprites_enabled
        },
        ..d
    }
}

/// Keeps track of whether the program currently draws sprites.
pub fn sprite_update_tracker(cp: &Checkpoints, cpu: &Cpu, mem: &Memory, data: &mut InterfaceData)
    requires
        mem.wf(),
    ensures
        final(data)@ == track_sprites(*cp, cpu.pc, mem.ram@, old(data)@),
{
    if cpu.pc == cp.update_sprites {
        data.sprites_enabled = mem.lb(offsets::SPRITES_ENABLED) == 0x01;
    } else if cpu.pc == cp.clear_sprites {
        data.sprites_enabled = false;
    }
}

/// Everything the hooks do at one instruction boundary.
pub open spec fn tick(cp: Checkpoints, h: HookView) -> HookView {
    let (ram1, d1) = collision_check(cp, h.cpu.pc, h.ram, h.data);
    let h2 = leave_text(
        cp,
        feed_char(cp, hijack_dialogue(cp, HookView { cpu: h.cpu, ram: ram1, data: d1 })),
    );
    HookView { data: track_sprites(cp, h2.cpu.pc, h2.ram, h2.data), ..h2 }
}

/// Runs the hooks after each instruction: the collision check, the
/// dialogue hijack and the sprite tracker, in that order.
pub fn on_tick(cp: &Checkpoints, cpu: &mut Cpu, mem: &mut Memory, data: &mut InterfaceData)
    requires
        old(mem).wf(),
        old(data).wf(),
    ensures
        final(mem).wf(),
        final(data).wf(),
        final(mem).rom == old(mem).rom,
        final(mem).gpu == old(mem).gpu,
        (HookView { cpu: *final(cpu), ram: final(mem).ram@, data: final(data)@ }) == tick(
            *cp,
            HookView { cpu: *old(cpu), ram: old(mem).ram@, data: old(data)@ },
        ),
{
    sprite_check(cp, cpu, mem, data);
    display_text(cp, cpu, mem, data);
    sprite_update_tracker(cp, cpu, mem, data);
}

/// Runs at each video sync: refreshes the local player's record from memory
/// and, while the program draws sprites, draws the remote players on the
/// local player's map.
pub fn on_vblank(data: &InterfaceData, local: &mut PlayerData, sheet: &Vec<u8>, mem: &mut Memory)
    requires
        old(mem).wf(),
        valid_sheet(sheet@, 5),
    ensures
        final(mem).wf(),
        final(mem).ram == old(mem).ram,
        final(mem).rom == old(mem).rom,
        final(local).movement_data == movement_in(old(mem).ram@),
        is_name_at(old(mem).ram@, offsets::PLAYER_NAME_START as int, final(local).name@),
        final(mem).gpu.framebuffer@ == if data.sprites_enabled {
            frame_with_players(
                old(mem).gpu.framebuffer@,
                old(mem).gpu.pixel_priorities@,
                old(mem).gpu.obp0,
                old(mem).gpu.obp1,
                old(mem).ram@,
                sheet@,
                movement_in(old(mem).ram@),
                data.players@,
            )
        } else {
            old(mem).gpu.framebuffer@
        },
        final(mem).gpu.pixel_priorities == old(mem).gpu.pixel_priorities,
{
    *local = PlayerData { name: player_name(mem), movement_data: movement_data(mem) };
    if data.sprites_enabled() {
        draw_other_players(data, local, sheet, mem);
    }
}

} // verus!
