//! Tests of the single-entity rules: archetype recipes, the cargo
//! invariant, the exact damage multiplier table, and movement stepping.

use space_rts::geom::within_range;
use space_rts::object::{
    ArmorType, CargoType, ObjectType, RadarType, SampleObject, WeaponType,
};
use space_rts::worldgen::clp2;

fn harvester() -> SampleObject {
    SampleObject::new(
        "p1".to_string(),
        "H1".to_string(),
        ObjectType::Harvester,
        2000,
        3000,
    )
}

#[test]
fn recipe_harvester() {
    let o = harvester();
    assert_eq!(o.owner, "p1");
    assert_eq!(o.name, "H1");
    assert!(o.otype == ObjectType::Harvester);
    assert_eq!(o.x, 2000);
    assert_eq!(o.y, 3000);
    assert_eq!(o.drive_dest_x, 2000);
    assert_eq!(o.drive_dest_y, 3000);
    assert_eq!(o.drive_speed, 1);
    assert!(o.radar_type == RadarType::Simple);
    assert_eq!(o.radar_radius, 10_000);
    assert!(o.weapon_type == WeaponType::Mining);
    assert!(!o.weapon_active);
    assert!(o.cargo_type == CargoType::Mining);
    assert_eq!(o.cargo_max, 100_000);
    assert_eq!(o.cargo_current, 0);
    assert_eq!(o.shell_health, 30_000);
    assert!(o.shell_type == ArmorType::Light);
}

#[test]
fn recipe_battlecruiser_is_armed() {
    let o = SampleObject::new(
        "p2".to_string(),
        "B1".to_string(),
        ObjectType::Battlecruiser,
        0,
        0,
    );
    assert!(o.weapon_type == WeaponType::Laser);
    assert_eq!(o.cargo_current, o.cargo_max);
    assert!(o.shell_type == ArmorType::Heavy);
    assert!(o.radar_type == RadarType::Military);
}

#[test]
fn cargo_add_respects_capacity() {
    let mut o = harvester();
    assert!(o.cargo_add(99_999));
    assert_eq!(o.cargo_current, 99_999);
    assert!(o.cargo_add(1));
    assert_eq!(o.cargo_current, 100_000);
    // A failing call leaves the load unchanged.
    assert!(!o.cargo_add(1));
    assert_eq!(o.cargo_current, 100_000);
}

#[test]
fn cargo_remove_respects_floor() {
    let mut o = harvester();
    assert!(o.cargo_add(5000));
    assert!(o.cargo_remove(5000));
    assert_eq!(o.cargo_current, 0);
    assert!(!o.cargo_remove(1));
    assert_eq!(o.cargo_current, 0);
}

#[test]
fn damage_table_laser_light_full() {
    // A Laser hit of 10.0 against Light armor takes exactly 10.0.
    let mut o = harvester();
    o.shell_damage(WeaponType::Laser, 10_000);
    assert_eq!(o.shell_health, 30_000 - 10_000);
}

#[test]
fn damage_table_laser_heavy_hundredth() {
    // A Laser hit of 10.0 against Heavy armor takes exactly 0.1.
    let mut o = SampleObject::new(
        "p2".to_string(),
        "B1".to_string(),
        ObjectType::Battlecruiser,
        0,
        0,
    );
    o.shell_damage(WeaponType::Laser, 10_000);
    assert_eq!(o.shell_health, 200_000 - 100);
}

#[test]
fn damage_table_laser_asteroid_full() {
    // A Laser hit of 10.0 against Asteroid armor takes exactly 10.0.
    let mut o = SampleObject::new(
        "x".to_string(),
        "A1".to_string(),
        ObjectType::Asteroid,
        0,
        0,
    );
    o.shell_damage(WeaponType::Laser, 10_000);
    assert_eq!(o.shell_health, 100_000 - 10_000);
}

#[test]
fn damage_table_mining_middle_nothing() {
    // A Mining hit of 10.0 against Middle armor takes exactly 0.0.
    let mut o = harvester();
    o.shell_type = ArmorType::Middle;
    o.shell_damage(WeaponType::Mining, 10_000);
    assert_eq!(o.shell_health, 30_000);
}

#[test]
fn damage_table_mining_light_thousandth() {
    let mut o = harvester();
    o.shell_damage(WeaponType::Mining, 10_000);
    assert_eq!(o.shell_health, 30_000 - 10);
}

#[test]
fn damage_table_laser_building_thousandth() {
    let mut o = SampleObject::new(
        "p1".to_string(),
        "Base".to_string(),
        ObjectType::Builder,
        0,
        0,
    );
    o.shell_damage(WeaponType::Laser, 10_000);
    assert_eq!(o.shell_health, 500_000 - 10);
}

#[test]
fn weapon_without_kind_deals_nothing() {
    let mut o = harvester();
    o.shell_damage(WeaponType::Absent, 10_000);
    assert_eq!(o.shell_health, 30_000);
}

#[test]
fn drive_and_weapon_setters() {
    let mut o = harvester();
    o.drive_move_to(7000, 8000);
    assert_eq!(o.drive_dest_x, 7000);
    assert_eq!(o.drive_dest_y, 8000);
    o.weapon_fire(100, 200);
    assert!(o.weapon_active);
    assert_eq!(o.weapon_target_x, 100);
    assert_eq!(o.weapon_target_y, 200);
    o.weapon_stop();
    assert!(!o.weapon_active);
}

#[test]
fn check_owner_matches() {
    let o = harvester();
    assert!(o.check_owner(Some(&"p1".to_string())));
    assert!(!o.check_owner(Some(&"p2".to_string())));
    assert!(o.check_owner(None));
}

#[test]
fn engine_update_steps_each_axis() {
    let mut o = harvester();
    o.drive_move_to(2500, 2000);
    // speed 0.001, elapsed 1.0: one milli-unit per axis toward the target.
    o.engine_update(1000, 1_000_000, 1_000_000);
    assert_eq!(o.x, 2001);
    assert_eq!(o.y, 2999);
}

#[test]
fn engine_update_clamps_to_world() {
    let mut o = SampleObject::new(
        "p2".to_string(),
        "B1".to_string(),
        ObjectType::Battlecruiser,
        9,
        0,
    );
    o.drive_move_to(0, 0);
    // speed 0.002 over elapsed 10.0 would step 20 milli past the border.
    o.engine_update(10_000, 1_000_000, 1_000_000);
    assert_eq!(o.x, 0);
    assert_eq!(o.y, 0);
}

#[test]
fn within_range_is_exact_on_the_boundary() {
    // The 3-4-5 triangle, in milli-units.
    assert!(within_range(0, 0, 3000, 4000, 5000));
    assert!(!within_range(0, 0, 3000, 4000, 4999));
    assert!(within_range(10, 10, 10, 10, 0));
}

#[test]
fn clp2_rounds_up_to_powers_of_two() {
    assert_eq!(clp2(1), 1);
    assert_eq!(clp2(2), 2);
    assert_eq!(clp2(3), 4);
    assert_eq!(clp2(5), 8);
    assert_eq!(clp2(17), 32);
    assert_eq!(clp2(1000), 1024);
    assert_eq!(clp2(1024), 1024);
    assert_eq!(clp2(0x4000_0000), 0x4000_0000);
}
