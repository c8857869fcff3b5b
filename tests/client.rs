use gb_mmo::data::{BattleData, MovementData, PlayerData, BATTLE_DATA_SIZE};
use gb_mmo::event::NetworkEvent;
use gb_mmo::host::Memory;
use gb_mmo::interface::{InterfaceData, InterfaceState, NetworkRequest};
use gb_mmo::net::{ClientManager, Reaction};
use gb_mmo::offsets;
use gb_mmo::text::encode_str;
use gb_mmo::values::Direction;

fn player(name: &[u8], x: u8) -> PlayerData {
    PlayerData {
        name: name.to_vec(),
        movement_data: MovementData { map_id: 1, map_x: x, map_y: 2, direction: Direction::Up, walk_counter: 0 },
    }
}

fn kinds(events: &[NetworkEvent]) -> Vec<&'static str> {
    events
        .iter()
        .map(|e| match e {
            NetworkEvent::MovementUpdate(..) => "movement",
            NetworkEvent::FullUpdate(..) => "full",
            NetworkEvent::Chat(..) => "chat",
            NetworkEvent::BattleDataRequest(..) => "battle",
            _ => "other",
        })
        .collect()
}

#[test]
fn first_sighting_sends_a_full_update() {
    let mut c = ClientManager::new(3);
    let mut data = InterfaceData::new();
    c.update_player(&player(&[0x80], 1));
    let out = c.send_update(&mut data, None);
    assert_eq!(kinds(&out), vec!["full"]);
    assert!(c.send_update(&mut data, None).is_empty());
}

#[test]
fn a_move_sends_a_movement_update_only() {
    let mut c = ClientManager::new(3);
    let mut data = InterfaceData::new();
    c.update_player(&player(&[0x80], 1));
    c.send_update(&mut data, None);
    c.update_player(&player(&[0x80], 2));
    let out = c.send_update(&mut data, None);
    assert_eq!(kinds(&out), vec!["movement"]);
    match &out[0] {
        NetworkEvent::MovementUpdate(id, m) => {
            assert_eq!(*id, 3);
            assert_eq!(m.map_x, 2);
        }
        _ => panic!("expected a movement update"),
    }
}

#[test]
fn a_new_name_sends_a_full_update() {
    let mut c = ClientManager::new(3);
    let mut data = InterfaceData::new();
    c.update_player(&player(&[0x80], 1));
    c.send_update(&mut data, None);
    c.update_player(&player(&[0x81], 1));
    assert_eq!(kinds(&c.send_update(&mut data, None)), vec!["full"]);
}

#[test]
fn events_leave_in_fixed_order() {
    let mut c = ClientManager::new(3);
    let mut data = InterfaceData::new();
    c.update_player(&player(&[0x80], 1));
    c.send_update(&mut data, None);
    c.update_player(&player(&[0x81], 4));
    data.network_request = NetworkRequest::Battle(8);
    let out = c.send_update(&mut data, Some("yo".to_string()));
    assert_eq!(kinds(&out), vec!["movement", "full", "chat", "battle"]);
    match &out[3] {
        NetworkEvent::BattleDataRequest(from, to) => assert_eq!((*from, *to), (3, 8)),
        _ => panic!("expected a battle request"),
    }
    assert_eq!(data.network_request, NetworkRequest::NoRequest);
}

#[test]
fn full_update_is_idempotent() {
    let c = ClientManager::new(0);
    let mut data = InterfaceData::new();
    let mut mem = Memory::new(vec![]);
    let local = PlayerData::new();
    c.recv_update(&mut data, &mut mem, &local, NetworkEvent::FullUpdate(5, player(&[0x80], 1)));
    let once = (data.players.len(), data.players.get(5).unwrap().clone());
    c.recv_update(&mut data, &mut mem, &local, NetworkEvent::FullUpdate(5, player(&[0x80], 1)));
    assert_eq!(data.players.len(), once.0);
    assert_eq!(data.players.get(5).unwrap(), &once.1);
}

#[test]
fn movement_and_quit_update_the_table() {
    let c = ClientManager::new(0);
    let mut data = InterfaceData::new();
    let mut mem = Memory::new(vec![]);
    let local = PlayerData::new();
    c.recv_update(&mut data, &mut mem, &local, NetworkEvent::FullUpdate(5, player(&[0x80], 1)));
    let m = MovementData { map_id: 1, map_x: 9, map_y: 9, direction: Direction::Left, walk_counter: 3 };
    c.recv_update(&mut data, &mut mem, &local, NetworkEvent::MovementUpdate(5, m));
    assert_eq!(data.players.get(5).unwrap().movement_data, m);
    assert_eq!(data.players.get(5).unwrap().name, vec![0x80]);
    c.recv_update(&mut data, &mut mem, &local, NetworkEvent::MovementUpdate(6, m));
    assert!(data.players.get(6).is_none());
    c.recv_update(&mut data, &mut mem, &local, NetworkEvent::PlayerQuit(5));
    assert_eq!(data.players.len(), 0);
}

#[test]
fn battle_request_is_answered_with_the_local_record() {
    let c = ClientManager::new(1);
    let mut data = InterfaceData::new();
    let mut mem = Memory::new(vec![]);
    mem.ram[offsets::PLAYER_BATTLE_DATA_START as usize] = 2;
    mem.ram[offsets::PLAYER_BATTLE_DATA_START as usize + BATTLE_DATA_SIZE - 1] = 9;
    let local = PlayerData::new();
    match c.recv_update(&mut data, &mut mem, &local, NetworkEvent::BattleDataRequest(0, 1)) {
        Reaction::Reply(NetworkEvent::BattleDataResponse(to, record)) => {
            assert_eq!(to, 0);
            assert_eq!(record.data.len(), BATTLE_DATA_SIZE);
            assert_eq!(record.data[0], 2);
            assert_eq!(record.data[BATTLE_DATA_SIZE - 1], 9);
        }
        _ => panic!("expected a battle record"),
    }
}

#[test]
fn battle_record_sets_up_the_battle() {
    let c = ClientManager::new(1);
    let mut data = InterfaceData::new();
    let mut mem = Memory::new(vec![]);
    let local = PlayerData::new();
    c.recv_update(&mut data, &mut mem, &local, NetworkEvent::FullUpdate(4, player(&[0x81, 0x82], 1)));
    data.last_interaction = 4;
    data.state = InterfaceState::Waiting;
    let r = c.recv_update(&mut data, &mut mem, &local, NetworkEvent::BattleDataResponse(1, BattleData { data: vec![7, 8, 9] }));
    assert!(matches!(r, Reaction::Applied));
    assert_eq!(data.state, InterfaceState::Normal);
    assert_eq!(mem.ram[offsets::BATTLE_TYPE as usize], 0);
    assert_eq!(mem.ram[offsets::ACTIVE_BATTLE as usize], 2);
    assert_eq!(mem.ram[offsets::IS_LINK_BATTLE as usize], 1);
    assert_eq!(mem.ram[offsets::CURRRENT_OPPONENT as usize], 0x1A + 0xC8);
    let start = offsets::ENEMY_BATTLE_DATA_START as usize;
    assert_eq!(&mem.ram[start..start + 3], &[7, 8, 9]);
    let name = offsets::ENEMY_NAME_START as usize;
    assert_eq!(&mem.ram[name..name + 3], &[0x81, 0x82, 0x50]);
}

#[test]
fn oversized_battle_record_is_ignored() {
    let c = ClientManager::new(1);
    let mut data = InterfaceData::new();
    let mut mem = Memory::new(vec![]);
    let local = PlayerData::new();
    c.recv_update(&mut data, &mut mem, &local, NetworkEvent::FullUpdate(4, player(&[0x81], 1)));
    data.last_interaction = 4;
    data.state = InterfaceState::Waiting;
    let r = c.recv_update(&mut data, &mut mem, &local, NetworkEvent::BattleDataResponse(1, BattleData { data: vec![1; 0x3000] }));
    assert!(matches!(r, Reaction::Ignored));
    assert_eq!(data.state, InterfaceState::Normal);
    assert_eq!(mem.ram[offsets::ACTIVE_BATTLE as usize], 0);
}

#[test]
fn update_request_is_answered_with_the_local_record() {
    let c = ClientManager::new(2);
    let mut data = InterfaceData::new();
    let mut mem = Memory::new(vec![]);
    let local = player(&[0x85], 3);
    match c.recv_update(&mut data, &mut mem, &local, NetworkEvent::UpdateRequest) {
        Reaction::Reply(NetworkEvent::FullUpdate(id, p)) => {
            assert_eq!(id, 2);
            assert_eq!(p, local);
        }
        _ => panic!("expected a full update"),
    }
}

#[test]
fn chat_names_the_sender() {
    let c = ClientManager::new(0);
    let mut data = InterfaceData::new();
    let mut mem = Memory::new(vec![]);
    let local = PlayerData::new();
    c.recv_update(&mut data, &mut mem, &local, NetworkEvent::FullUpdate(5, player(&[0x81, 0x8E], 1)));
    match c.recv_update(&mut data, &mut mem, &local, NetworkEvent::Chat(5, "hi".to_string())) {
        Reaction::ChatLine(name, text) => {
            assert_eq!(name, vec![0x81, 0x8E]);
            assert_eq!(text, vec![0xA7, 0xA8]);
        }
        _ => panic!("expected a chat line"),
    }
    match c.recv_update(&mut data, &mut mem, &local, NetworkEvent::Chat(6, "".to_string())) {
        Reaction::ChatLine(name, text) => {
            assert_eq!(name, encode_str("UNKNOWN"));
            assert!(text.is_empty());
        }
        _ => panic!("expected a chat line"),
    }
}

#[test]
fn server_events_are_ignored_by_clients() {
    let c = ClientManager::new(0);
    let mut data = InterfaceData::new();
    let mut mem = Memory::new(vec![]);
    let local = PlayerData::new();
    assert!(matches!(c.recv_update(&mut data, &mut mem, &local, NetworkEvent::PlayerJoin(3)), Reaction::Ignored));
    assert!(matches!(c.recv_update(&mut data, &mut mem, &local, NetworkEvent::ServerFailure), Reaction::Ignored));
}

#[test]
fn first_message_must_be_a_join() {
    assert_eq!(gb_mmo::net::joined_id(&NetworkEvent::PlayerJoin(4)).ok(), Some(4));
    assert!(matches!(
        gb_mmo::net::joined_id(&NetworkEvent::UpdateRequest),
        Err(gb_mmo::error::NetworkError::DecodeError)
    ));
}
