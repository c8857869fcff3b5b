//! Player, movement and party records that travel between clients.
use vstd::prelude::*;

use crate::values::{
    Direction, MOVE_NONE, MOVE_POUND, POKEID_WEEDLE, STATUS_NONE, TYPE_BUG, TYPE_NORMAL,
};

verus! {

/// One tile further along the map axis, wrapping as the emulated program's
/// byte-sized coordinates do.
pub open spec fn tile_after(v: u8) -> u8 {
    if v == 255 { 0 } else { (v + 1) as u8 }
}

/// One tile back along the map axis, wrapping as the emulated program's
/// byte-sized coordinates do.
pub open spec fn tile_before(v: u8) -> u8 {
    if v == 0 { 255 } else { (v - 1) as u8 }
}

/// The tile one step from `(x, y)` in direction `d`.
pub open spec fn step_tile(x: u8, y: u8, d: Direction) -> (u8, u8) {
    match d {
        Direction::Down => (x, tile_after(y)),
        Direction::Up => (x, tile_before(y)),
        Direction::Left => (tile_before(x), y),
        Direction::Right => (tile_after(x), y),
    }
}

pub fn next_tile(v: u8) -> (r: u8)
    ensures
        r == tile_after(v),
{
    if v == 255 { 0 } else { v + 1 }
}

pub fn prev_tile(v: u8) -> (r: u8)
    ensures
        r == tile_before(v),
{
    if v == 0 { 255 } else { v - 1 }
}

/// The tile one step from `(x, y)` in direction `d`.
pub fn tile_ahead(x: u8, y: u8, d: Direction) -> (r: (u8, u8))
    ensures
        r == step_tile(x, y, d),
{
    match d {
        Direction::Down => (x, next_tile(y)),
        Direction::Up => (x, prev_tile(y)),
        Direction::Left => (prev_tile(x), y),
        Direction::Right => (next_tile(x), y),
    }
}

/// Where a player stands and how far it is through a step.
#[derive(Clone, Copy, Debug, PartialEq, Eq, Structural)]
pub struct MovementData {
    pub map_id: u8,
    pub map_x: u8,
    pub map_y: u8,
    pub direction: Direction,
    /// Counts down from 8 while the player walks to the next tile; 0 while it
    /// stands still.
    pub walk_counter: u8,
}

impl MovementData {
    /// The tile that a player with this movement is heading for: the next
    /// tile in its direction while it walks, its own tile otherwise.
    pub open spec fn target(self) -> (u8, u8) {
        if self.walk_counter != 0 {
            step_tile(self.map_x, self.map_y, self.direction)
        } else {
            (self.map_x, self.map_y)
        }
    }

    /// Whether a player with this movement occupies tile `(x, y)`: its own
    /// tile, and while it walks the tile it walks to.
    pub open spec fn occupies(self, x: u8, y: u8) -> bool {
        (x, y) == (self.map_x, self.map_y) || (x, y) == self.target()
    }

    /// The set of tiles that a player with this movement occupies.
    pub open spec fn occupied_tiles(self) -> Set<(u8, u8)> {
        Set::new(|t: (u8, u8)| self.occupies(t.0, t.1))
    }

    pub fn new() -> (r: MovementData)
        ensures
            r == (MovementData {
                map_id: 0,
                map_x: 0,
                map_y: 0,
                direction: Direction::Down,
                walk_counter: 0,
            }),
    {
        MovementData { map_id: 0, map_x: 0, map_y: 0, direction: Direction::Down, walk_counter: 0 }
    }

    /// Returns the tile that the player is currently moving towards.
    pub fn move_target(&self) -> (r: (u8, u8))
        ensures
            r == self.target(),
    {
        if self.walk_counter != 0 {
            tile_ahead(self.map_x, self.map_y, self.direction)
        } else {
            (self.map_x, self.map_y)
        }
    }
}

/// A walking player occupies exactly two tiles, its own and the one it walks
/// to; a player standing still occupies exactly its own tile.
pub proof fn lemma_occupied_tiles(m: MovementData)
    ensures
        m.walk_counter != 0 ==> m.occupied_tiles() == set![(m.map_x, m.map_y), m.target()]
            && (m.map_x, m.map_y) != m.target() && m.occupied_tiles().len() == 2,
        m.walk_counter == 0 ==> m.occupied_tiles() == set![(m.map_x, m.map_y)]
            && m.occupied_tiles().len() == 1,
{
    let here = (m.map_x, m.map_y);
    if m.walk_counter != 0 {
        assert(m.occupied_tiles() =~= set![here, m.target()]);
        assert(here != m.target());
        assert(set![here, m.target()].len() == 2) by {
            assert(set![here].len() == 1) by {
                assert(set![here] == Set::<(u8, u8)>::empty().insert(here));
            }
            assert(!set![here].contains(m.target()));
        }
    } else {
        assert(m.occupied_tiles() =~= set![here]);
        assert(set![here] == Set::<(u8, u8)>::empty().insert(here));
    }
}

/// The 16x16 sprite that the renderer draws: its screen position, the frame
/// of the sprite sheet and the sprite attribute flags.
#[derive(Clone, Copy, Debug, PartialEq, Eq, Structural)]
pub struct SpriteData {
    pub x: isize,
    pub y: isize,
    pub index: usize,
    pub flags: u8,
}

/// A player as other clients see it: its name in the game's own text bytes
/// and its movement.
#[derive(Clone, Debug)]
pub struct PlayerData {
    pub name: Vec<u8>,
    pub movement_data: MovementData,
}

/// What a `PlayerData` holds, as plain values.
pub struct PlayerView {
    pub name: Seq<u8>,
    pub movement_data: MovementData,
}

impl View for PlayerData {
    type V = PlayerView;

    open spec fn view(&self) -> PlayerView {
        PlayerView { name: self.name@, movement_data: self.movement_data }
    }
}

/// Whether two byte strings are equal.
pub fn same_bytes(a: &Vec<u8>, b: &Vec<u8>) -> (r: bool)
    ensures
        r == (a@ == b@),
{
    if a.len() != b.len() {
        return false;
    }
    let mut i: usize = 0;
    while i < a.len()
        invariant
            a@.len() == b@.len(),
            0 <= i <= a@.len(),
            forall|j: int| 0 <= j < i ==> a@[j] == b@[j],
        decreases a@.len() - i,
    {
        if a[i] != b[i] {
            return false;
        }
        i += 1;
    }
    assert(a@ =~= b@);
    true
}

impl PartialEq for PlayerData {
    fn eq(&self, other: &PlayerData) -> (r: bool)
        ensures
            r == (self@ == other@),
    {
        self.movement_data == other.movement_data && same_bytes(&self.name, &other.name)
    }
}

impl vstd::std_specs::cmp::PartialEqSpecImpl for PlayerData {
    open spec fn obeys_eq_spec() -> bool {
        true
    }

    open spec fn eq_spec(&self, other: &PlayerData) -> bool {
        self@ == other@
    }
}

impl PlayerData {
    pub fn new() -> (r: PlayerData)
        ensures
            r.name@ == Seq::<u8>::empty(),
            r.movement_data == MovementData::new_spec(),
    {
        PlayerData { name: Vec::new(), movement_data: MovementData::new() }
    }

    /// Check if this player is occupying a particular tile.
    pub fn check_collision(&self, x: u8, y: u8) -> (r: bool)
        ensures
            r == self.movement_data.occupies(x, y),
    {
        let target = self.movement_data.move_target();
        (x == self.movement_data.map_x && y == self.movement_data.map_y) || (x == target.0 && y
            == target.1)
    }

    /// Check if one player is visible to another player.
    pub fn is_visible_to(&self, other: &PlayerData) -> (r: bool)
        ensures
            r == (self.movement_data.map_id == other.movement_data.map_id),
    {
        self.movement_data.map_id == other.movement_data.map_id
    }

    pub fn duplicate(&self) -> (r: PlayerData)
        ensures
            r@ == self@,
    {
        PlayerData { name: self.name.clone(), movement_data: self.movement_data }
    }
}

impl MovementData {
    /// The movement of a player that has not reported one yet.
    pub open spec fn new_spec() -> MovementData {
        MovementData { map_id: 0, map_x: 0, map_y: 0, direction: Direction::Down, walk_counter: 0 }
    }
}

/// The party and battle record of a player, as raw bytes of the game's memory.
#[derive(Clone, Debug)]
pub struct BattleData {
    pub data: Vec<u8>,
}

/// Size in bytes of the battle record copied between players.
pub const BATTLE_DATA_SIZE: usize = 0x194;

/// One party member as the game stores it.
#[derive(Clone, Copy, Debug)]
pub struct PokemonData {
    pub species: u8,
    pub hp: u16,
    pub unknown: u8,
    pub status: u8,
    pub type1: u8,
    pub type2: u8,
    pub catch_rate: u8,
    pub moves: (u8, u8, u8, u8),
    pub ot_id: u16,
    pub exp: (u8, u8, u8),
    pub hp_ev: u16,
    pub attack_ev: u16,
    pub defense_ev: u16,
    pub speed_ev: u16,
    pub special_ev: u16,
    pub individual_values: (u8, u8),
    pub move_pp: (u8, u8, u8, u8),
    pub level: u8,
    pub max_hp: u16,
    pub attack: u16,
    pub defense: u16,
    pub speed: u16,
    pub special: u16,
}

/// A party of up to six members; `num_pokemon` says how many slots count.
#[derive(Clone, Copy, Debug)]
pub struct Party {
    pub num_pokemon: u8,
    pub pokemon: (PokemonData, PokemonData, PokemonData, PokemonData, PokemonData, PokemonData),
}

impl PokemonData {
    /// A level 10 Weedle that knows Pound, for trying out battles.
    pub fn test_data() -> (r: PokemonData)
        ensures
            r.species == POKEID_WEEDLE,
            r.hp == 10 && r.max_hp == 20 && r.level == 10,
            r.status == STATUS_NONE,
            r.type1 == TYPE_BUG && r.type2 == TYPE_NORMAL,
            r.moves == (MOVE_POUND, MOVE_NONE, MOVE_NONE, MOVE_NONE),
            r.move_pp == (20u8, 0u8, 0u8, 0u8),
            r.ot_id == 0x1234,
            r.attack == 10 && r.defense == 10 && r.speed == 10 && r.special == 10,
            r.unknown == 0 && r.catch_rate == 0 && r.exp == (0u8, 0u8, 0u8),
            r.hp_ev == 0 && r.attack_ev == 0 && r.defense_ev == 0 && r.speed_ev == 0
                && r.special_ev == 0,
            r.individual_values == (0u8, 0u8),
    {
        PokemonData {
            species: POKEID_WEEDLE,
            hp: 10,
            unknown: 0,
            status: STATUS_NONE,
            type1: TYPE_BUG,
            type2: TYPE_NORMAL,
            catch_rate: 0,
            moves: (MOVE_POUND, MOVE_NONE, MOVE_NONE, MOVE_NONE),
            ot_id: 0x1234,
            exp: (0, 0, 0),
            hp_ev: 0,
            attack_ev: 0,
            defense_ev: 0,
            speed_ev: 0,
            special_ev: 0,
            individual_values: (0, 0),
            move_pp: (20, 0, 0, 0),
            level: 10,
            max_hp: 20,
            attack: 10,
            defense: 10,
            speed: 10,
            special: 10,
        }
    }
}

} // verus!
