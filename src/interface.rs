//! The client-side state shared by the hooks, and the operations that write a
//! remote player's battle into the emulated machine.
use vstd::prelude::*;

use crate::data::{BattleData, Party, PlayerData, PlayerView, PokemonData};
use crate::host::{Memory, ADDRESS_SPACE};
use crate::offsets;
use crate::presence::{Entry, PresenceTable};
use crate::text::{self, encode_spec, END_MSG, TERMINATOR, TEXT_START};
use crate::values::{ActiveBattle, BattleType, TrainerClass, TRAINER_TAG, TRUE};
use crate::PlayerId;

verus! {

/// Whether a part of the emulated program runs as written or is being steered.
#[derive(Clone, Copy, Debug, PartialEq, Eq, Structural)]
pub enum DataState {
    Normal,
    Hacked,
}

/// Whether the emulation runs, or waits for an answer from the network.
#[derive(Clone, Copy, Debug, PartialEq, Eq, Structural)]
pub enum InterfaceState {
    Normal,
    Waiting,
}

/// A request that the hooks raise for the network side to send.
#[derive(Clone, Copy, Debug, PartialEq, Eq, Structural)]
pub enum NetworkRequest {
    NoRequest,
    Battle(PlayerId),
}

/// Everything the hooks share across one run of the emulated program.
pub struct InterfaceData {
    pub state: InterfaceState,
    pub network_request: NetworkRequest,
    /// The remote players known to this client.
    pub players: PresenceTable,
    /// The remote player that the local player last walked into.
    pub last_interaction: PlayerId,
    /// Whether the collision check was made to report a blocking sprite.
    pub sprite_id_state: DataState,
    /// Whether the text processor reads from `current_message`.
    pub text_state: DataState,
    /// Text bytes waiting to be fed to the text processor, first byte first.
    pub current_message: Vec<u8>,
    pub sprites_enabled: bool,
}

/// What an `InterfaceData` holds, as plain values.
pub struct InterfaceView {
    pub state: InterfaceState,
    pub network_request: NetworkRequest,
    pub players: Seq<Entry>,
    pub last_interaction: PlayerId,
    pub sprite_id_state: DataState,
    pub text_state: DataState,
    pub current_message: Seq<u8>,
    pub sprites_enabled: bool,
}

impl View for InterfaceData {
    type V = InterfaceView;

    open spec fn view(&self) -> InterfaceView {
        InterfaceView {
            state: self.state,
            network_request: self.network_request,
            players: self.players@,
            last_interaction: self.last_interaction,
            sprite_id_state: self.sprite_id_state,
            text_state: self.text_state,
            current_message: self.current_message@,
            sprites_enabled: self.sprites_enabled,
        }
    }
}

/// The bytes of a message box that shows text `s`.
pub open spec fn message_box_bytes(s: Seq<char>) -> Seq<u8> {
    seq![TEXT_START] + encode_spec(s) + seq![END_MSG, TERMINATOR]
}

impl InterfaceData {
    pub open spec fn wf(&self) -> bool {
        self.players.wf()
    }

    pub fn new() -> (r: InterfaceData)
        ensures
            r.wf(),
            r@ == (InterfaceView {
                state: InterfaceState::Normal,
                network_request: NetworkRequest::NoRequest,
                players: Seq::empty(),
                last_interaction: 0,
                sprite_id_state: DataState::Normal,
                text_state: DataState::Normal,
                current_message: Seq::empty(),
                sprites_enabled: false,
            }),
    {
        InterfaceData {
            state: InterfaceState::Normal,
            network_request: NetworkRequest::NoRequest,
            players: PresenceTable::new(),
            last_interaction: 0,
            sprite_id_state: DataState::Normal,
            text_state: DataState::Normal,
            current_message: Vec::new(),
            sprites_enabled: false,
        }
    }

    pub fn sprites_enabled(&self) -> (r: bool)
        ensures
            r == self.sprites_enabled,
    {
        self.sprites_enabled
    }

    /// Queues a message box showing `input` for the text processor.
    pub fn create_message_box(&mut self, input: &str)
        ensures
            final(self).wf() == old(self).wf(),
            final(self)@ == (InterfaceView {
                current_message: old(self)@.current_message + message_box_bytes(input@),
                ..old(self)@
            }),
    {
        let bytes = text::encode_str(input);
        let mut extra: Vec<u8> = Vec::new();
        extra.push(TEXT_START);
        let mut i: usize = 0;
        while i < bytes.len()
            invariant
                0 <= i <= bytes@.len(),
                extra@ == seq![TEXT_START] + bytes@.subrange(0, i as int),
            decreases bytes@.len() - i,
        {
            extra.push(bytes[i]);
            assert(bytes@.subrange(0, i + 1) =~= bytes@.subrange(0, i as int).push(bytes@[i as int]));
            i += 1;
        }
        extra.push(END_MSG);
        extra.push(TERMINATOR);
        assert(bytes@.subrange(0, bytes@.len() as int) =~= bytes@);
        assert(extra@ =~= message_box_bytes(input@));
        self.current_message.append(&mut extra);
    }
}

/// The address in the screen's tile map of the tile under screen pixel
/// `(x, y)`, counting with the emulated program's byte arithmetic.
pub open spec fn tile_id_addr(x: u8, y: u8) -> u16 {
    (offsets::TILE_MAP + 20 * ((((y + 4) % 256) / 16) * 2) + (x / 8 + 0x14)) as u16
}

/// Returns the tile map address of the tile under screen pixel `(x, y)`.
pub fn get_tile_id_addr(x: u8, y: u8) -> (r: u16)
    ensures
        r == tile_id_addr(x, y),
{
    let yy: u8 = if y >= 252 { y - 252 } else { y + 4 };
    assert((yy & 0xF0) >> 3 == (yy / 16) * 2) by (bit_vector);
    assert(x >> 3 == x / 8) by (bit_vector);
    let y_offset: u8 = (yy & 0xF0) >> 3;
    let x_offset: u8 = (x >> 3) + 0x14;
    offsets::TILE_MAP + 20 * (y_offset as u16) + x_offset as u16
}

/// `ram` with `bytes` written from address `start` on.
pub open spec fn write_seq(ram: Seq<u8>, start: int, bytes: Seq<u8>) -> Seq<u8> {
    Seq::new(
        ram.len(),
        |i: int|
            if start <= i < start + bytes.len() {
                bytes[i - start]
            } else {
                ram[i]
            },
    )
}

/// Writes `bytes` into memory from address `start` on.
pub fn write_bytes(mem: &mut Memory, start: u16, bytes: &Vec<u8>)
    requires
        old(mem).wf(),
        start + bytes@.len() <= ADDRESS_SPACE,
    ensures
        final(mem).wf(),
        final(mem).ram@ == write_seq(old(mem).ram@, start as int, bytes@),
        final(mem).rom == old(mem).rom,
        final(mem).gpu == old(mem).gpu,
{
    let mut i: usize = 0;
    while i < bytes.len()
        invariant
            mem.wf(),
            0 <= i <= bytes@.len(),
            start + bytes@.len() <= ADDRESS_SPACE,
            mem.ram@ == write_seq(old(mem).ram@, start as int, bytes@.subrange(0, i as int)),
            mem.rom == old(mem).rom,
            mem.gpu == old(mem).gpu,
        decreases bytes@.len() - i,
    {
        mem.sb(start + i as u16, bytes[i]);
        i += 1;
        assert(mem.ram@ =~= write_seq(old(mem).ram@, start as int, bytes@.subrange(0, i as int)));
    }
    assert(bytes@.subrange(0, bytes@.len() as int) =~= bytes@);
}

/// Value of the current-opponent cell for a battle against Prof. Oak.
pub const OAK_OPPONENT: u8 = 0x1A + TRAINER_TAG;

/// Memory after a link battle against `enemy` with `battle` was set up.
pub open spec fn battle_memory(ram: Seq<u8>, enemy: PlayerView, battle: Seq<u8>) -> Seq<u8> {
    let r1 = ram.update(offsets::BATTLE_TYPE as int, 0).update(
        offsets::ACTIVE_BATTLE as int,
        2,
    ).update(offsets::IS_LINK_BATTLE as int, TRUE).update(
        offsets::CURRRENT_OPPONENT as int,
        OAK_OPPONENT,
    );
    let r2 = write_seq(r1, offsets::ENEMY_BATTLE_DATA_START as int, battle);
    write_seq(r2, offsets::ENEMY_NAME_START as int, enemy.name.push(TERMINATOR))
}

/// Sets up a link battle against `enemy`, whose battle record is `battle_data`.
pub fn set_battle(mem: &mut Memory, enemy: &PlayerData, battle_data: BattleData)
    requires
        old(mem).wf(),
        offsets::ENEMY_BATTLE_DATA_START + battle_data.data@.len() <= ADDRESS_SPACE,
        offsets::ENEMY_NAME_START + enemy.name@.len() < ADDRESS_SPACE,
    ensures
        final(mem).wf(),
        final(mem).ram@ == battle_memory(old(mem).ram@, enemy@, battle_data.data@),
        final(mem).rom == old(mem).rom,
        final(mem).gpu == old(mem).gpu,
{
    mem.sb(offsets::BATTLE_TYPE, BattleType::Normal.code());
    mem.sb(offsets::ACTIVE_BATTLE, ActiveBattle::Trainer.code());
    mem.sb(offsets::IS_LINK_BATTLE, TRUE);
    mem.sb(offsets::CURRRENT_OPPONENT, TrainerClass::ProfOak.code() + TRAINER_TAG);
    write_bytes(mem, offsets::ENEMY_BATTLE_DATA_START, &battle_data.data);
    let mut name = enemy.name.clone();
    name.push(TERMINATOR);
    write_bytes(mem, offsets::ENEMY_NAME_START, &name);
}

/// Member `i` (0 to 5) of a party's six slots.
pub open spec fn member(party: Party, i: int) -> PokemonData {
    if i == 0 {
        party.pokemon.0
    } else if i == 1 {
        party.pokemon.1
    } else if i == 2 {
        party.pokemon.2
    } else if i == 3 {
        party.pokemon.3
    } else if i == 4 {
        party.pokemon.4
    } else {
        party.pokemon.5
    }
}

fn party_member(party: &Party, i: usize) -> (r: PokemonData)
    requires
        i < 6,
    ensures
        r == member(*party, i as int),
{
    match i {
        0 => party.pokemon.0,
        1 => party.pokemon.1,
        2 => party.pokemon.2,
        3 => party.pokemon.3,
        4 => party.pokemon.4,
        _ => party.pokemon.5,
    }
}

/// How many members of a party are in use: its count, at most six.
pub open spec fn members_used(party: Party) -> int {
    if party.num_pokemon > 6 {
        6
    } else {
        party.num_pokemon as int
    }
}

/// Level and species of the first `n` members, in that order.
pub open spec fn levels_and_species(party: Party, n: int) -> Seq<u8>
    decreases n,
{
    if n <= 0 {
        Seq::empty()
    } else {
        levels_and_species(party, n - 1) + seq![member(party, n - 1).level, member(party, n - 1).species]
    }
}

/// The trainer party record for `party`: a marker byte, level and species
/// of each member in use, and a closing zero.
pub open spec fn trainer_party_bytes(party: Party) -> Seq<u8> {
    seq![0xFFu8] + levels_and_species(party, members_used(party)) + seq![0u8]
}

/// Offset of the Prof. Oak party record within its cartridge bank.
pub open spec fn oak_offset() -> int {
    (offsets::PROF_OAK_DATA_ADDR & 0x3FFF) as int
}

/// Loads a party into the unused Prof. Oak trainer slot of the cartridge.
pub fn load_trainer_party(party: Party, mem: &mut Memory)
    requires
        offsets::PROF_OAK_DATA_BANK < old(mem).rom@.len(),
        oak_offset() + 14 <= old(mem).rom@[offsets::PROF_OAK_DATA_BANK as int]@.len(),
    ensures
        final(mem).ram == old(mem).ram,
        final(mem).gpu == old(mem).gpu,
        final(mem).rom@.len() == old(mem).rom@.len(),
        forall|b: int|
            0 <= b < final(mem).rom@.len() && b != offsets::PROF_OAK_DATA_BANK
                ==> #[trigger] final(mem).rom@[b] == old(mem).rom@[b],
        final(mem).rom@[offsets::PROF_OAK_DATA_BANK as int]@ == write_seq(
            old(mem).rom@[offsets::PROF_OAK_DATA_BANK as int]@,
            oak_offset(),
            trainer_party_bytes(party),
        ),
{
    let bank = offsets::PROF_OAK_DATA_BANK;
    let start = (offsets::PROF_OAK_DATA_ADDR & 0x3FFF) as usize;
    let n: usize = if party.num_pokemon > 6 { 6 } else { party.num_pokemon as usize };
    let mut record: Vec<u8> = Vec::new();
    record.push(0xFF);
    let mut i: usize = 0;
    while i < n
        invariant
            0 <= i <= n,
            n == members_used(party),
            record@ == seq![0xFFu8] + levels_and_species(party, i as int),
            record@.len() == 1 + 2 * i,
        decreases n - i,
    {
        let mon = party_member(&party, i);
        record.push(mon.level);
        record.push(mon.species);
        assert(record@ =~= seq![0xFFu8] + levels_and_species(party, i + 1));
        i += 1;
    }
    record.push(0);
    assert(record@ =~= trainer_party_bytes(party));
    let mut data = mem.rom.remove(bank);
    let ghost before = data@;
    let mut k: usize = 0;
    while k < record.len()
        invariant
            0 <= k <= record@.len(),
            record@.len() <= 14,
            start == oak_offset(),
            start + 14 <= before.len(),
            data@.len() == before.len(),
            data@ == write_seq(before, start as int, record@.subrange(0, k as int)),
        decreases record@.len() - k,
    {
        data.set(start + k, record[k]);
        k += 1;
        assert(data@ =~= write_seq(before, start as int, record@.subrange(0, k as int)));
    }
    assert(record@.subrange(0, record@.len() as int) =~= record@);
    mem.rom.insert(bank, data);
    assert(mem.rom@ =~= old(mem).rom@.update(bank as int, mem.rom@[bank as int]));
}

} // verus!
