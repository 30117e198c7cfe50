//! Tests of the engine: store uniqueness, ownership enforcement, the
//! event processor's multi-tick processes, destruction cascades, build
//! completion and the radar disclosure policy.

use space_rts::engine::{GameConfig, GameEngine, StoreError};
use space_rts::events::{
    DamageEvent, Event, NetworkBuildEvent, NetworkFireEvent, NetworkMoveEvent,
};
use space_rts::object::{ObjectType, WeaponType};

fn engine() -> GameEngine {
    // A square world of one thousand units.
    GameEngine::new(1_000_000, 1_000_000, GameConfig::new("testserver".to_string()))
}

fn move_request(name: &str, owner: &str, x: i64, y: i64) -> Event {
    Event::MoveRequest(NetworkMoveEvent {
        name: name.to_string(),
        owner: owner.to_string(),
        dest_x: x,
        dest_y: y,
    })
}

fn fire_request(name: &str, owner: &str, x: i64, y: i64) -> Event {
    Event::FireRequest(NetworkFireEvent {
        name: name.to_string(),
        owner: owner.to_string(),
        dest_x: x,
        dest_y: y,
    })
}

fn build_request(name: &str, owner: &str, b_type: ObjectType, b_name: &str) -> Event {
    Event::BuildRequest(NetworkBuildEvent {
        name: name.to_string(),
        owner: owner.to_string(),
        b_type,
        b_name: b_name.to_string(),
    })
}

#[test]
fn new_engine_is_empty() {
    let e = engine();
    assert_eq!(e.objects.len(), 0);
    assert_eq!(e.events.len(), 0);
    assert_eq!(e.info.name, "testserver");
    assert_eq!(e.info.status, "Ok");
    assert_eq!(e.info.tps, 0);
    assert_eq!(e.world_size_x, 1_000_000);
    assert_eq!(e.world_size_y, 1_000_000);
}

#[test]
fn update_tps_stores_measurement() {
    let mut e = engine();
    e.update_tps(60);
    assert_eq!(e.info.tps, 60);
}

#[test]
fn duplicate_name_is_an_error() {
    let mut e = engine();
    assert!(e
        .add_object("H1".to_string(), 0, 0, ObjectType::Harvester, "p1".to_string())
        .is_ok());
    let r = e.add_object("H1".to_string(), 500, 500, ObjectType::Asteroid, "p2".to_string());
    assert!(r == Err(StoreError::DuplicateName));
    // At most one entity per name: the store still holds one entry.
    assert_eq!(e.objects.len(), 1);
    assert!(e.objects[0].otype == ObjectType::Harvester);
}

#[test]
fn lookup_respects_ownership() {
    let mut e = engine();
    e.add_object("H1".to_string(), 0, 0, ObjectType::Harvester, "p1".to_string())
        .unwrap();
    assert!(e.get_object(&"H1".to_string(), None).is_some());
    assert!(e.get_object(&"H1".to_string(), Some(&"p1".to_string())).is_some());
    // An ownership mismatch looks exactly like a missing entity.
    assert!(e.get_object(&"H1".to_string(), Some(&"p2".to_string())).is_none());
    assert!(e.get_object(&"nobody".to_string(), None).is_none());
    assert!(e.check_object_exsists(&"H1".to_string(), Some(&"p1".to_string())));
    assert!(!e.check_object_exsists(&"H1".to_string(), Some(&"p2".to_string())));
    let copy = e.get_object_with_owner("H1".to_string(), "p1".to_string()).unwrap();
    assert_eq!(copy.name, "H1");
    assert!(e.get_object_with_owner("H1".to_string(), "p2".to_string()).is_none());
}

#[test]
fn move_request_with_wrong_owner_changes_nothing() {
    let mut e = engine();
    e.add_object("H1".to_string(), 0, 0, ObjectType::Harvester, "p1".to_string())
        .unwrap();
    e.add_event(move_request("H1", "p2", 10_000, 0));
    e.game_loop(1000);
    let o = e.get_object(&"H1".to_string(), None).unwrap();
    assert_eq!(o.drive_dest_x, 0);
    assert_eq!(o.drive_dest_y, 0);
    assert_eq!(e.events.len(), 0);
}

#[test]
fn fire_request_with_wrong_owner_changes_nothing() {
    let mut e = engine();
    e.add_object("B1".to_string(), 0, 0, ObjectType::Battlecruiser, "p1".to_string())
        .unwrap();
    e.add_event(fire_request("B1", "p2", 5000, 5000));
    e.game_loop(1000);
    let o = e.get_object(&"B1".to_string(), None).unwrap();
    assert_eq!(o.cargo_current, 50_000);
    assert!(!o.weapon_active);
    assert_eq!(e.events.len(), 0);
}

#[test]
fn build_request_with_wrong_owner_changes_nothing() {
    let mut e = engine();
    e.add_object("Base".to_string(), 0, 0, ObjectType::Builder, "p1".to_string())
        .unwrap();
    e.add_event(build_request("Base", "p2", ObjectType::Harvester, "H2"));
    e.game_loop(1000);
    assert_eq!(e.events.len(), 0);
    assert_eq!(e.objects.len(), 1);
}

#[test]
fn move_request_outside_world_is_dropped() {
    let mut e = engine();
    e.add_object("H1".to_string(), 0, 0, ObjectType::Harvester, "p1".to_string())
        .unwrap();
    e.add_event(move_request("H1", "p1", 2_000_000, 0));
    e.game_loop(1000);
    assert_eq!(e.events.len(), 0);
    let o = e.get_object(&"H1".to_string(), None).unwrap();
    assert_eq!(o.drive_dest_x, 0);
}

#[test]
fn fire_request_consumes_laser_ammunition() {
    let mut e = engine();
    e.add_object("B1".to_string(), 0, 0, ObjectType::Battlecruiser, "p1".to_string())
        .unwrap();
    e.add_event(fire_request("B1", "p1", 5000, 6000));
    e.game_loop(1000);
    let o = e.get_object(&"B1".to_string(), None).unwrap();
    assert_eq!(o.cargo_current, 49_000);
    assert!(o.weapon_active);
    assert_eq!(o.weapon_target_x, 5000);
    assert_eq!(o.weapon_target_y, 6000);
    assert_eq!(e.events.len(), 1);
    match e.events.front().unwrap() {
        Event::Damage(d) => {
            assert_eq!(d.x, 5000);
            assert_eq!(d.y, 6000);
            assert_eq!(d.size, 10_000);
            assert!(d.d_type == WeaponType::Laser);
            assert_eq!(d.damage, 10_000);
        }
        _ => panic!("expected a damage event"),
    }
}

#[test]
fn fire_request_mining_extracts_cargo() {
    let mut e = engine();
    e.add_object("H1".to_string(), 0, 0, ObjectType::Harvester, "p1".to_string())
        .unwrap();
    e.add_event(fire_request("H1", "p1", 1000, 0));
    e.game_loop(1000);
    let o = e.get_object(&"H1".to_string(), None).unwrap();
    assert_eq!(o.cargo_current, 1000);
    assert!(o.weapon_active);
    match e.events.front().unwrap() {
        Event::Damage(d) => assert!(d.d_type == WeaponType::Mining),
        _ => panic!("expected a damage event"),
    }
}

#[test]
fn failing_resource_operation_deactivates_weapon() {
    let mut e = engine();
    e.add_object("H1".to_string(), 0, 0, ObjectType::Harvester, "p1".to_string())
        .unwrap();
    // Fill the hold so that the extraction must fail.
    {
        let o = &mut e.objects[0];
        o.cargo_current = o.cargo_max;
        o.weapon_active = true;
    }
    e.add_event(fire_request("H1", "p1", 1000, 0));
    e.game_loop(1000);
    let o = e.get_object(&"H1".to_string(), None).unwrap();
    assert_eq!(o.cargo_current, o.cargo_max);
    assert!(!o.weapon_active);
    assert_eq!(e.events.len(), 0);
}

#[test]
fn unarmed_entity_cannot_fire() {
    let mut e = engine();
    e.add_object("Base".to_string(), 0, 0, ObjectType::Builder, "p1".to_string())
        .unwrap();
    e.add_event(fire_request("Base", "p1", 1000, 0));
    e.game_loop(1000);
    assert_eq!(e.events.len(), 0);
}

#[test]
fn movement_decreases_distance_and_snaps_exactly() {
    let mut e = engine();
    e.add_object("B1".to_string(), 0, 0, ObjectType::Battlecruiser, "p1".to_string())
        .unwrap();
    e.add_event(move_request("B1", "p1", 50, 30));
    e.game_loop(1000);
    let mut last: i128 = i128::MAX;
    let mut guard = 0;
    while !e.events.is_empty() {
        e.game_loop(1000);
        let o = e.get_object(&"B1".to_string(), None).unwrap();
        let dx = (o.x - 50) as i128;
        let dy = (o.y - 30) as i128;
        let d2 = dx * dx + dy * dy;
        assert!(d2 < last);
        last = d2;
        guard += 1;
        assert!(guard < 100, "movement did not terminate");
    }
    let o = e.get_object(&"B1".to_string(), None).unwrap();
    assert_eq!(o.x, 50);
    assert_eq!(o.y, 30);
}

#[test]
fn movement_snaps_within_one_step() {
    let mut e = engine();
    e.add_object("B1".to_string(), 0, 0, ObjectType::Battlecruiser, "p1".to_string())
        .unwrap();
    // Exactly one step (0.002 over elapsed 1.0) away: the entity snaps on
    // the first movement tick and the process ends.
    e.add_event(move_request("B1", "p1", 2, 0));
    e.game_loop(1000);
    e.game_loop(1000);
    let o = e.get_object(&"B1".to_string(), None).unwrap();
    assert_eq!(o.x, 2);
    assert_eq!(e.events.len(), 0);
}

#[test]
fn damage_event_hits_everything_in_radius() {
    let mut e = engine();
    e.add_object("H1".to_string(), 1000, 0, ObjectType::Harvester, "p1".to_string())
        .unwrap();
    e.add_object("H2".to_string(), 5000, 0, ObjectType::Harvester, "p1".to_string())
        .unwrap();
    e.add_object("H3".to_string(), 20_000, 0, ObjectType::Harvester, "p1".to_string())
        .unwrap();
    e.add_event(Event::Damage(DamageEvent {
        x: 0,
        y: 0,
        size: 5000,
        d_type: WeaponType::Laser,
        damage: 10_000,
    }));
    e.game_loop(1000);
    assert_eq!(e.get_object(&"H1".to_string(), None).unwrap().shell_health, 20_000);
    // The border is inclusive.
    assert_eq!(e.get_object(&"H2".to_string(), None).unwrap().shell_health, 20_000);
    assert_eq!(e.get_object(&"H3".to_string(), None).unwrap().shell_health, 30_000);
}

#[test]
fn malformed_damage_event_is_dropped() {
    let mut e = engine();
    e.add_object("H1".to_string(), 0, 0, ObjectType::Harvester, "p1".to_string())
        .unwrap();
    e.add_event(Event::Damage(DamageEvent {
        x: 0,
        y: 0,
        size: -1,
        d_type: WeaponType::Laser,
        damage: 10_000,
    }));
    e.game_loop(1000);
    assert_eq!(e.get_object(&"H1".to_string(), None).unwrap().shell_health, 30_000);
}

#[test]
fn destruction_cascade_removes_entity_once() {
    let mut e = engine();
    e.add_object("H1".to_string(), 0, 0, ObjectType::Harvester, "p1".to_string())
        .unwrap();
    // Two overkill hits, queued back to back.
    for _ in 0..2 {
        e.add_event(Event::Damage(DamageEvent {
            x: 0,
            y: 0,
            size: 1000,
            d_type: WeaponType::Laser,
            damage: 100_000,
        }));
    }
    // First hit drives health to or below zero: exactly one destruction
    // event is emitted.
    e.game_loop(1000);
    let destroys = e
        .events
        .iter()
        .filter(|ev| matches!(ev, Event::Destroy(_)))
        .count();
    assert_eq!(destroys, 1);
    // The second hit finds the entity already destroyed and emits none.
    e.game_loop(1000);
    let destroys = e
        .events
        .iter()
        .filter(|ev| matches!(ev, Event::Destroy(_)))
        .count();
    assert_eq!(destroys, 1);
    // Processing the destruction removes the entity from the store.
    e.game_loop(1000);
    assert_eq!(e.objects.len(), 0);
    assert_eq!(e.events.len(), 0);
}

#[test]
fn build_completes_exactly_on_the_crossing_tick() {
    let mut e = engine();
    e.add_object("Base".to_string(), 7000, 9000, ObjectType::Builder, "p1".to_string())
        .unwrap();
    e.add_event(build_request("Base", "p1", ObjectType::Harvester, "H1"));
    e.game_loop(1000);
    // Progress 0.1 per tick toward 100: 999 further ticks stay short of
    // the threshold.
    for _ in 0..999 {
        e.game_loop(1000);
        assert_eq!(e.objects.len(), 1);
    }
    // The thousandth increment crosses the threshold: exactly one new
    // entity, at the builder's position, owned by the builder's owner.
    e.game_loop(1000);
    assert_eq!(e.objects.len(), 2);
    assert_eq!(e.events.len(), 0);
    let o = e.get_object(&"H1".to_string(), None).unwrap();
    assert_eq!(o.x, 7000);
    assert_eq!(o.y, 9000);
    assert_eq!(o.owner, "p1");
    assert!(o.otype == ObjectType::Harvester);
}

#[test]
fn build_to_a_taken_name_creates_nothing() {
    let mut e = engine();
    e.add_object("Base".to_string(), 0, 0, ObjectType::Builder, "p1".to_string())
        .unwrap();
    e.add_object("H1".to_string(), 500, 500, ObjectType::Harvester, "p2".to_string())
        .unwrap();
    e.add_event(build_request("Base", "p1", ObjectType::Battlecruiser, "H1"));
    let mut guard = 0;
    loop {
        e.game_loop(1000);
        if e.events.is_empty() {
            break;
        }
        guard += 1;
        assert!(guard < 2000, "construction did not terminate");
    }
    assert_eq!(e.objects.len(), 2);
    let o = e.get_object(&"H1".to_string(), None).unwrap();
    assert!(o.otype == ObjectType::Harvester);
    assert_eq!(o.owner, "p2");
}

#[test]
fn empty_queue_tick_is_a_no_op() {
    let mut e = engine();
    e.add_object("H1".to_string(), 0, 0, ObjectType::Harvester, "p1".to_string())
        .unwrap();
    e.game_loop(1000);
    assert_eq!(e.objects.len(), 1);
    assert_eq!(e.events.len(), 0);
}

#[test]
fn second_move_request_retargets_in_flight_movement() {
    // A fresh request overwrites the live drive destination, and every
    // pending movement continuation chases the live destination.
    let mut e = engine();
    e.add_object("H1".to_string(), 0, 0, ObjectType::Harvester, "p1".to_string())
        .unwrap();
    e.add_event(move_request("H1", "p1", 100, 0));
    e.game_loop(1000);
    for _ in 0..5 {
        e.game_loop(1000);
    }
    assert_eq!(e.get_object(&"H1".to_string(), None).unwrap().x, 5);
    e.add_event(move_request("H1", "p1", 0, 0));
    let mut guard = 0;
    while !e.events.is_empty() {
        e.game_loop(1000);
        guard += 1;
        assert!(guard < 100, "movement did not terminate");
    }
    let o = e.get_object(&"H1".to_string(), None).unwrap();
    assert_eq!(o.x, 0);
    assert_eq!(o.y, 0);
}

#[test]
fn harvester_reaches_distant_target() {
    // The end-to-end scenario: a Harvester at the origin, told by its
    // owner to move ten units along the x axis, arrives exactly after
    // ten thousand movement ticks and the queue holds nothing more.
    let mut e = engine();
    e.add_object("H1".to_string(), 0, 0, ObjectType::Harvester, "p1".to_string())
        .unwrap();
    e.add_event(move_request("H1", "p1", 10_000, 0));
    // One tick resolves the request into the movement process.
    e.game_loop(1000);
    for _ in 0..10_000 {
        e.game_loop(1000);
    }
    let o = e.get_object(&"H1".to_string(), None).unwrap();
    assert_eq!(o.x, 10_000);
    assert_eq!(o.y, 0);
    assert_eq!(e.events.len(), 0);
}
