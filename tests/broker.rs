use gb_mmo::broker::{Broker, BrokerError, IdAllocator};
use gb_mmo::data::{BattleData, MovementData, PlayerData};
use gb_mmo::event::NetworkEvent;

fn two_clients() -> Broker {
    let mut b = Broker::new();
    b.connect(0);
    b.connect(1);
    b
}

#[test]
fn chat_goes_to_the_other_client_only() {
    let mut b = two_clients();
    let to = b.dispatch(&NetworkEvent::Chat(0, "hi".to_string())).unwrap();
    assert_eq!(to, vec![1]);
}

#[test]
fn updates_go_to_every_other_client() {
    let mut b = two_clients();
    b.connect(2);
    let to = b.dispatch(&NetworkEvent::MovementUpdate(1, MovementData::new())).unwrap();
    assert_eq!(to, vec![0, 2]);
    let to = b.dispatch(&NetworkEvent::FullUpdate(2, PlayerData::new())).unwrap();
    assert_eq!(to, vec![0, 1]);
}

#[test]
fn newcomer_triggers_update_request_to_all() {
    let mut b = two_clients();
    let to = b.connect(2);
    assert_eq!(to, vec![0, 1, 2]);
}

#[test]
fn battle_request_goes_to_named_client_only() {
    let mut b = two_clients();
    b.connect(2);
    let to = b.dispatch(&NetworkEvent::BattleDataRequest(0, 1)).unwrap();
    assert_eq!(to, vec![1]);
    let to = b.dispatch(&NetworkEvent::BattleDataResponse(0, BattleData { data: vec![1, 2] })).unwrap();
    assert_eq!(to, vec![0]);
}

#[test]
fn battle_request_to_unknown_client_goes_nowhere() {
    let mut b = two_clients();
    let to = b.dispatch(&NetworkEvent::BattleDataRequest(0, 7)).unwrap();
    assert!(to.is_empty());
}

#[test]
fn quit_removes_client_and_tells_the_rest() {
    let mut b = two_clients();
    b.connect(2);
    let to = b.dispatch(&NetworkEvent::PlayerQuit(1)).unwrap();
    assert_eq!(to, vec![0, 2]);
    assert_eq!(b.clients(), &vec![0, 2]);
}

#[test]
fn server_only_events_are_refused() {
    let mut b = two_clients();
    assert_eq!(b.dispatch(&NetworkEvent::UpdateRequest), Err(BrokerError::ProtocolViolation));
    assert_eq!(b.dispatch(&NetworkEvent::PlayerJoin(3)), Err(BrokerError::ProtocolViolation));
    assert_eq!(b.dispatch(&NetworkEvent::ServerFailure), Err(BrokerError::ProtocolViolation));
}

#[test]
fn reconnecting_the_same_id_keeps_one_entry() {
    let mut b = two_clients();
    let to = b.connect(1);
    assert_eq!(to, vec![0, 1]);
}

#[test]
fn ids_are_handed_out_in_sequence() {
    let mut ids = IdAllocator::new();
    assert_eq!(ids.allocate(), Some(0));
    assert_eq!(ids.allocate(), Some(1));
    assert_eq!(ids.allocate(), Some(2));
}
