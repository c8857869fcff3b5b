//! The messages that clients and the broker exchange.
use vstd::prelude::*;

use crate::data::{BattleData, MovementData, PlayerData, PlayerView};
use crate::PlayerId;

verus! {

/// One message of the wire protocol.
#[derive(Debug)]
pub enum NetworkEvent {
    /// Everything about a player, sent when it changes and on request.
    FullUpdate(PlayerId, PlayerData),
    /// A player's new position.
    MovementUpdate(PlayerId, MovementData),
    /// Asks every client to send its full record again.
    UpdateRequest,
    /// Tells a new client its id.
    PlayerJoin(PlayerId),
    /// A player left.
    PlayerQuit(PlayerId),
    /// A chat line from a player.
    Chat(PlayerId, String),
    /// The first player asks the second for its battle record.
    BattleDataRequest(PlayerId, PlayerId),
    /// A battle record for the named player.
    BattleDataResponse(PlayerId, BattleData),
    /// The connection to the server failed.
    ServerFailure,
}

/// What a `NetworkEvent` holds, as plain values.
pub enum EventView {
    FullUpdate(PlayerId, PlayerView),
    MovementUpdate(PlayerId, MovementData),
    UpdateRequest,
    PlayerJoin(PlayerId),
    PlayerQuit(PlayerId),
    Chat(PlayerId, Seq<char>),
    BattleDataRequest(PlayerId, PlayerId),
    BattleDataResponse(PlayerId, Seq<u8>),
    ServerFailure,
}

impl View for NetworkEvent {
    type V = EventView;

    open spec fn view(&self) -> EventView {
        match self {
            NetworkEvent::FullUpdate(id, p) => EventView::FullUpdate(*id, p@),
            NetworkEvent::MovementUpdate(id, m) => EventView::MovementUpdate(*id, *m),
            NetworkEvent::UpdateRequest => EventView::UpdateRequest,
            NetworkEvent::PlayerJoin(id) => EventView::PlayerJoin(*id),
            NetworkEvent::PlayerQuit(id) => EventView::PlayerQuit(*id),
            NetworkEvent::Chat(id, s) => EventView::Chat(*id, s@),
            NetworkEvent::BattleDataRequest(a, b) => EventView::BattleDataRequest(*a, *b),
            NetworkEvent::BattleDataResponse(id, d) => EventView::BattleDataResponse(*id, d.data@),
            NetworkEvent::ServerFailure => EventView::ServerFailure,
        }
    }
}

impl NetworkEvent {
    /// A copy of this event.
    pub fn duplicate(&self) -> (r: NetworkEvent)
        ensures
            r@ == self@,
    {
        match self {
            NetworkEvent::FullUpdate(id, p) => NetworkEvent::FullUpdate(*id, p.duplicate()),
            NetworkEvent::MovementUpdate(id, m) => NetworkEvent::MovementUpdate(*id, *m),
            NetworkEvent::UpdateRequest => NetworkEvent::UpdateRequest,
            NetworkEvent::PlayerJoin(id) => NetworkEvent::PlayerJoin(*id),
            NetworkEvent::PlayerQuit(id) => NetworkEvent::PlayerQuit(*id),
            NetworkEvent::Chat(id, s) => NetworkEvent::Chat(*id, s.clone()),
            NetworkEvent::BattleDataRequest(a, b) => NetworkEvent::BattleDataRequest(*a, *b),
            NetworkEvent::BattleDataResponse(id, d) => NetworkEvent::BattleDataResponse(
                *id,
                BattleData { data: d.data.clone() },
            ),
            NetworkEvent::ServerFailure => NetworkEvent::ServerFailure,
        }
    }
}

} // verus!
