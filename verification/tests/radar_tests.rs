//! Tests of the radar disclosure policy: which attributes each tier of
//! radar exposes, and who may scan at all.

use space_rts::engine::{GameConfig, GameEngine};
use space_rts::object::ObjectType;

fn world() -> GameEngine {
    let mut e = GameEngine::new(1_000_000, 1_000_000, GameConfig::new("radar".to_string()));
    e.add_object("H1".to_string(), 0, 0, ObjectType::Harvester, "p1".to_string())
        .unwrap();
    e.add_object("Base".to_string(), 1000, 0, ObjectType::Builder, "p1".to_string())
        .unwrap();
    e.add_object("B1".to_string(), 2000, 0, ObjectType::Battlecruiser, "p2".to_string())
        .unwrap();
    e.add_object("A1".to_string(), 3000, 0, ObjectType::Asteroid, "nobody".to_string())
        .unwrap();
    e.add_object("Far".to_string(), 900_000, 900_000, ObjectType::Asteroid, "nobody".to_string())
        .unwrap();
    e
}

#[test]
fn radar_denies_wrong_owner() {
    let e = world();
    assert!(e.radar_scan(&"H1".to_string(), &"p2".to_string()).is_none());
    assert!(e.radar_scan(&"ghost".to_string(), &"p1".to_string()).is_none());
}

#[test]
fn simple_radar_exposes_positions_only() {
    let e = world();
    let contacts = e.radar_scan(&"H1".to_string(), &"p1".to_string()).unwrap();
    // Everything except the far asteroid is within ten units; the
    // scanner sees itself too.
    assert_eq!(contacts.len(), 4);
    for c in &contacts {
        assert!(c.name.is_none());
        assert!(c.otype.is_none());
        assert!(c.drive_speed.is_none());
    }
    assert_eq!(contacts[0].x, 0);
    assert_eq!(contacts[1].x, 1000);
}

#[test]
fn middle_radar_adds_name_and_kind() {
    let e = world();
    let contacts = e.radar_scan(&"Base".to_string(), &"p1".to_string()).unwrap();
    assert_eq!(contacts.len(), 4);
    let b1 = contacts.iter().find(|c| c.name.as_deref() == Some("B1")).unwrap();
    assert!(b1.otype == Some(ObjectType::Battlecruiser));
    assert!(b1.drive_speed.is_none());
}

#[test]
fn military_radar_adds_drive_speed() {
    let e = world();
    let contacts = e.radar_scan(&"B1".to_string(), &"p2".to_string()).unwrap();
    assert_eq!(contacts.len(), 4);
    let h1 = contacts.iter().find(|c| c.name.as_deref() == Some("H1")).unwrap();
    assert!(h1.otype == Some(ObjectType::Harvester));
    assert_eq!(h1.drive_speed, Some(1));
}

#[test]
fn no_radar_sees_nothing() {
    let e = world();
    let contacts = e.radar_scan(&"A1".to_string(), &"nobody".to_string()).unwrap();
    assert_eq!(contacts.len(), 0);
}
