//! The client's side of synchronisation: what to send after each frame, and
//! how each received event changes the presence table and the emulated game.
use vstd::prelude::*;

use crate::data::{same_bytes, MovementData, PlayerData, PlayerView};
use crate::error::NetworkError;
use crate::event::{EventView, NetworkEvent};
use crate::extract::{battle_data, battle_record_in};
use crate::host::{Memory, ADDRESS_SPACE};
use crate::interface::{
    battle_memory, set_battle, InterfaceData, InterfaceState, InterfaceView, NetworkRequest,
};
use crate::offsets;
use crate::presence::{
    has_id, index_of, lemma_upsert_idempotent, unique_ids, upsert, with_movement, without,
};
use crate::text::{encode_spec, encode_str};
use crate::PlayerId;

verus! {

/// The name shown for chat from a player this client does not know.
pub const UNKNOWN_NAME: &'static str = "UNKNOWN";

/// What the client has told the others about its player, and what it still
/// has to tell them.
pub struct ClientManager {
    pub id: PlayerId,
    pub last_state: Option<PlayerData>,
    pub full_update: Option<PlayerData>,
    pub movement_update: Option<MovementData>,
}

/// What a `ClientManager` holds, as plain values.
pub struct ClientView {
    pub id: PlayerId,
    pub last_state: Option<PlayerView>,
    pub full_update: Option<PlayerView>,
    pub movement_update: Option<MovementData>,
}

pub open spec fn player_view_of(p: Option<PlayerData>) -> Option<PlayerView> {
    match p {
        Some(q) => Some(q@),
        None => None,
    }
}

impl View for ClientManager {
    type V = ClientView;

    open spec fn view(&self) -> ClientView {
        ClientView {
            id: self.id,
            last_state: player_view_of(self.last_state),
            full_update: player_view_of(self.full_update),
            movement_update: self.movement_update,
        }
    }
}

/// The client state once the local player was seen as `p`: a changed
/// position queues a movement update, a first sighting or a changed name
/// queues a full update.
pub open spec fn after_local_update(c: ClientView, p: PlayerView) -> ClientView {
    ClientView {
        id: c.id,
        last_state: Some(p),
        movement_update: match c.last_state {
            Some(last) => if last.movement_data != p.movement_data {
                Some(p.movement_data)
            } else {
                c.movement_update
            },
            None => c.movement_update,
        },
        full_update: match c.last_state {
            Some(last) => if last.name != p.name {
                Some(p)
            } else {
                c.full_update
            },
            None => Some(p),
        },
    }
}

/// The events to send, in order: movement, full record, chat, battle request.
pub open spec fn outgoing(
    c: ClientView,
    chat: Option<Seq<char>>,
    request: NetworkRequest,
) -> Seq<EventView> {
    let m = match c.movement_update {
        Some(mv) => seq![EventView::MovementUpdate(c.id, mv)],
        None => Seq::empty(),
    };
    let f = match c.full_update {
        Some(p) => seq![EventView::FullUpdate(c.id, p)],
        None => Seq::empty(),
    };
    let t = match chat {
        Some(s) => seq![EventView::Chat(c.id, s)],
        None => Seq::empty(),
    };
    let b = match request {
        NetworkRequest::Battle(to) => seq![EventView::BattleDataRequest(c.id, to)],
        NetworkRequest::NoRequest => Seq::empty(),
    };
    m + f + t + b
}

/// How the client answers one received event.
pub enum Reaction {
    /// The event was applied and needs no answer.
    Applied,
    /// The event asks for this answer to be sent.
    Reply(NetworkEvent),
    /// A chat line to show: the sender's name and the text, in the game's
    /// alphabet.
    ChatLine(Vec<u8>, Vec<u8>),
    /// The event is not one a client receives, or its payload does not fit.
    Ignored,
}

/// What a `Reaction` holds, as plain values.
pub enum ReactionView {
    Applied,
    Reply(EventView),
    ChatLine(Seq<u8>, Seq<u8>),
    Ignored,
}

impl View for Reaction {
    type V = ReactionView;

    open spec fn view(&self) -> ReactionView {
        match self {
            Reaction::Applied => ReactionView::Applied,
            Reaction::Reply(e) => ReactionView::Reply(e@),
            Reaction::ChatLine(n, t) => ReactionView::ChatLine(n@, t@),
            Reaction::Ignored => ReactionView::Ignored,
        }
    }
}

/// Whether a battle record and an opponent name fit where the battle setup
/// writes them.
pub open spec fn battle_fits(enemy: PlayerView, battle: Seq<u8>) -> bool {
    offsets::ENEMY_BATTLE_DATA_START + battle.len() <= ADDRESS_SPACE
        && offsets::ENEMY_NAME_START + enemy.name.len() < ADDRESS_SPACE
}

/// The hook state and memory after event `e` arrived, and the reaction.
pub open spec fn receive(
    id: PlayerId,
    d: InterfaceView,
    ram: Seq<u8>,
    local: PlayerView,
    e: EventView,
) -> (InterfaceView, Seq<u8>, ReactionView) {
    match e {
        EventView::FullUpdate(pid, p) => (
            InterfaceView { players: upsert(d.players, pid, p), ..d },
            ram,
            ReactionView::Applied,
        ),
        EventView::MovementUpdate(pid, m) => (
            InterfaceView { players: with_movement(d.players, pid, m), ..d },
            ram,
            ReactionView::Applied,
        ),
        EventView::PlayerQuit(pid) => (
            InterfaceView { players: without(d.players, pid), ..d },
            ram,
            ReactionView::Applied,
        ),
        EventView::BattleDataRequest(from, _) => (
            d,
            ram,
            ReactionView::Reply(EventView::BattleDataResponse(from, battle_record_in(ram))),
        ),
        EventView::BattleDataResponse(_, battle) => {
            let d2 = InterfaceView { state: InterfaceState::Normal, ..d };
            if has_id(d.players, d.last_interaction) {
                let enemy = d.players[index_of(d.players, d.last_interaction)].1;
                if battle_fits(enemy, battle) {
                    (d2, battle_memory(ram, enemy, battle), ReactionView::Applied)
                } else {
                    (d2, ram, ReactionView::Ignored)
                }
            } else {
                (d2, ram, ReactionView::Applied)
            }
        },
        EventView::UpdateRequest => (d, ram, ReactionView::Reply(EventView::FullUpdate(id, local))),
        EventView::Chat(pid, text) => {
            let name = if has_id(d.players, pid) {
                d.players[index_of(d.players, pid)].1.name
            } else {
                encode_spec(UNKNOWN_NAME@)
            };
            (d, ram, ReactionView::ChatLine(name, encode_spec(text)))
        },
        _ => (d, ram, ReactionView::Ignored),
    }
}

/// The id that the broker assigns in its first message to a new client; any
/// other first message is a decode error.
pub fn joined_id(first: &NetworkEvent) -> (r: Result<PlayerId, NetworkError>)
    ensures
        r matches Ok(id) ==> first@ == EventView::PlayerJoin(id),
        r is Err <==> !(first@ is PlayerJoin),
        r matches Err(e) ==> e is DecodeError,
{
    match first {
        NetworkEvent::PlayerJoin(id) => Ok(*id),
        _ => Err(NetworkError::DecodeError),
    }
}

impl ClientManager {
    pub fn new(id: PlayerId) -> (r: ClientManager)
        ensures
            r@ == (ClientView {
                id,
                last_state: None,
                full_update: None,
                movement_update: None,
            }),
    {
        ClientManager { id, last_state: None, full_update: None, movement_update: None }
    }

    /// Notes the local player's current state, queueing the updates that
    /// its changes call for.
    pub fn update_player(&mut self, new_data: &PlayerData)
        ensures
            final(self)@ == after_local_update(old(self)@, new_data@),
    {
        match &self.last_state {
            Some(last) => {
                if last.movement_data != new_data.movement_data {
                    self.movement_update = Some(new_data.movement_data);
                }
                if !same_bytes(&last.name, &new_data.name) {
                    self.full_update = Some(new_data.duplicate());
                }
            },
            None => {
                self.full_update = Some(new_data.duplicate());
            },
        }
        self.last_state = Some(new_data.duplicate());
    }

    /// The events to send this frame, in the order movement, full record,
    /// chat, battle request. Pending updates are cleared and so is the
    /// request that the hooks raised.
    pub fn send_update(&mut self, data: &mut InterfaceData, chat: Option<String>) -> (r: Vec<
        NetworkEvent,
    >)
        ensures
            r@.map_values(|e: NetworkEvent| e@) == outgoing(
                old(self)@,
                match chat {
                    Some(s) => Some(s@),
                    None => None,
                },
                old(data)@.network_request,
            ),
            final(self)@ == (ClientView {
                movement_update: None,
                full_update: None,
                ..old(self)@
            }),
            final(data)@ == (InterfaceView {
                network_request: NetworkRequest::NoRequest,
                ..old(data)@
            }),
    {
        let mut out: Vec<NetworkEvent> = Vec::new();
        let movement = self.movement_update.take();
        match movement {
            Some(m) => out.push(NetworkEvent::MovementUpdate(self.id, m)),
            None => {},
        }
        let full = self.full_update.take();
        match full {
            Some(p) => out.push(NetworkEvent::FullUpdate(self.id, p)),
            None => {},
        }
        match chat {
            Some(s) => out.push(NetworkEvent::Chat(self.id, s)),
            None => {},
        }
        match data.network_request {
            NetworkRequest::Battle(to) => out.push(NetworkEvent::BattleDataRequest(self.id, to)),
            NetworkRequest::NoRequest => {},
        }
        data.network_request = NetworkRequest::NoRequest;
        assert(out@.map_values(|e: NetworkEvent| e@) =~= outgoing(
            old(self)@,
            match chat {
                Some(s) => Some(s@),
                None => None,
            },
            old(data)@.network_request,
        ));
        out
    }

    /// Applies one received event: updates and quits change the presence
    /// table, a battle request is answered with the local battle record, a
    /// battle record sets up the battle and ends the wait, an update request
    /// is answered with the local player's full record, and chat is turned
    /// into a line to show.
    pub fn recv_update(
        &self,
        data: &mut InterfaceData,
        mem: &mut Memory,
        local: &PlayerData,
        event: NetworkEvent,
    ) -> (r: Reaction)
        requires
            old(data).wf(),
            old(mem).wf(),
        ensures
            final(data).wf(),
            final(mem).wf(),
            final(mem).rom == old(mem).rom,
            final(mem).gpu == old(mem).gpu,
            (final(data)@, final(mem).ram@, r@) == receive(
                self.id,
                old(data)@,
                old(mem).ram@,
                local@,
                event@,
            ),
    {
        match event {
            NetworkEvent::FullUpdate(id, p) => {
                data.players.insert(id, p);
                Reaction::Applied
            },
            NetworkEvent::MovementUpdate(id, m) => {
                data.players.set_movement(id, m);
                Reaction::Applied
            },
            NetworkEvent::PlayerQuit(id) => {
                data.players.remove(id);
                Reaction::Applied
            },
            NetworkEvent::BattleDataRequest(from, _) => {
                let record = battle_data(mem);
                Reaction::Reply(NetworkEvent::BattleDataResponse(from, record))
            },
            NetworkEvent::BattleDataResponse(_, battle) => {
                data.state = InterfaceState::Normal;
                match data.players.get(data.last_interaction) {
                    Some(enemy) => {
                        if battle.data.len() <= ADDRESS_SPACE - offsets::ENEMY_BATTLE_DATA_START as usize
                            && enemy.name.len() < ADDRESS_SPACE - offsets::ENEMY_NAME_START as usize {
                            set_battle(mem, enemy, battle);
                            Reaction::Applied
                        } else {
                            Reaction::Ignored
                        }
                    },
                    None => Reaction::Applied,
                }
            },
            NetworkEvent::UpdateRequest => Reaction::Reply(
                NetworkEvent::FullUpdate(self.id, local.duplicate()),
            ),
            NetworkEvent::Chat(id, msg) => {
                let name = match data.players.get(id) {
                    Some(player) => player.name.clone(),
                    None => encode_str(UNKNOWN_NAME),
                };
                let text = encode_str(msg.as_str());
                Reaction::ChatLine(name, text)
            },
            _ => Reaction::Ignored,
        }
    }
}

/// Receiving the same full record twice leaves the presence table, and
/// everything else, as receiving it once.
pub proof fn lemma_full_update_idempotent(
    id: PlayerId,
    d: InterfaceView,
    ram: Seq<u8>,
    local: PlayerView,
    pid: PlayerId,
    p: PlayerView,
)
    requires
        unique_ids(d.players),
    ensures
        ({
            let e = EventView::FullUpdate(pid, p);
            let (d1, ram1, _) = receive(id, d, ram, local, e);
            let (d2, ram2, _) = receive(id, d1, ram1, local, e);
            d2 == d1 && ram2 == ram1
        }),
{
    lemma_upsert_idempotent(d.players, pid, p);
}

} // verus!
