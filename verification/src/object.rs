//! One simulated entity: identity, position, drive, radar, weapon, cargo
//! and armor, together with the per-archetype construction recipe and the
//! combat and resource rules that act on a single entity.

use vstd::prelude::*;

use crate::geom::{
    axis_step, clamped, in_world, step_len, step_length, DAMAGE_MAX, ELAPSED_MAX, SPEED_MAX,
    WORLD_MAX,
};

verus! {

#[derive(Clone, Copy, PartialEq, Eq, Structural, Debug)]
pub enum ObjectType {
    Asteroid,
    Builder,
    Battlecruiser,
    Harvester,
}

#[derive(Clone, Copy, PartialEq, Eq, Structural, Debug)]
pub enum RadarType {
    Absent,
    Simple,
    Middle,
    Military,
}

#[derive(Clone, Copy, PartialEq, Eq, Structural, Debug)]
pub enum WeaponType {
    Absent,
    Mining,
    Laser,
}

#[derive(Clone, Copy, PartialEq, Eq, Structural, Debug)]
pub enum CargoType {
    Absent,
    Mining,
    Battery,
}

#[derive(Clone, Copy, PartialEq, Eq, Structural, Debug)]
pub enum ArmorType {
    Asteroid,
    Light,
    Middle,
    Heavy,
    Building,
}

/// One entity of the world. All coordinates, radii, speeds, cargo amounts
/// and health values are fixed-point milli-units.
pub struct SampleObject {
    pub owner: String,
    pub name: String,
    pub otype: ObjectType,
    pub x: i64,
    pub y: i64,

    pub drive_speed: i64,
    pub drive_dest_x: i64,
    pub drive_dest_y: i64,

    pub radar_radius: i64,
    pub radar_type: RadarType,

    pub weapon_active: bool,
    pub weapon_type: WeaponType,
    pub weapon_radius: i64,
    pub weapon_target_x: i64,
    pub weapon_target_y: i64,

    pub cargo_type: CargoType,
    pub cargo_max: i64,
    pub cargo_current: i64,

    pub shell_health: i64,
    pub shell_type: ArmorType,
}

/// Numerator of the armor-versus-weapon damage multiplier, over a fixed
/// denominator of 1000. A weapon of kind `Absent` deals no damage.
pub open spec fn multiplier_num(armor: ArmorType, weapon: WeaponType) -> int {
    match weapon {
        WeaponType::Absent => 0,
        WeaponType::Mining => match armor {
            ArmorType::Asteroid => 1000,
            ArmorType::Light => 1,
            ArmorType::Middle => 0,
            ArmorType::Heavy => 0,
            ArmorType::Building => 0,
        },
        WeaponType::Laser => match armor {
            ArmorType::Asteroid => 1000,
            ArmorType::Light => 1000,
            ArmorType::Middle => 100,
            ArmorType::Heavy => 10,
            ArmorType::Building => 1,
        },
    }
}

/// Damage actually applied: the amount scaled by the multiplier table.
pub open spec fn damage_applied(armor: ArmorType, weapon: WeaponType, amount: int) -> int {
    amount * multiplier_num(armor, weapon) / 1000
}

/// Health left after applying a hit, saturating at the representable floor
/// so that repeated hits on an already destroyed entity stay defined.
pub open spec fn damaged_health(
    health: int,
    armor: ArmorType,
    weapon: WeaponType,
    amount: int,
) -> int {
    if health - damage_applied(armor, weapon, amount) < i64::MIN {
        i64::MIN as int
    } else {
        health - damage_applied(armor, weapon, amount)
    }
}

/// The fixed construction recipe: every archetype determines all initial
/// module values. A new entity rests at its spawn point (destination equal
/// to position) with its weapon idle.
pub open spec fn object_recipe(
    owner: String,
    name: String,
    otype: ObjectType,
    x: i64,
    y: i64,
) -> SampleObject {
    SampleObject {
        owner,
        name,
        otype,
        x,
        y,
        drive_speed: recipe_drive_speed(otype),
        drive_dest_x: x,
        drive_dest_y: y,
        radar_radius: recipe_radar_radius(otype),
        radar_type: recipe_radar_type(otype),
        weapon_active: false,
        weapon_type: recipe_weapon_type(otype),
        weapon_radius: recipe_weapon_radius(otype),
        weapon_target_x: 0,
        weapon_target_y: 0,
        cargo_type: recipe_cargo_type(otype),
        cargo_max: recipe_cargo_max(otype),
        cargo_current: recipe_cargo_current(otype),
        shell_health: recipe_health(otype),
        shell_type: recipe_armor_type(otype),
    }
}

pub open spec fn recipe_drive_speed(otype: ObjectType) -> i64 {
    match otype {
        ObjectType::Asteroid => 0,
        ObjectType::Builder => 1,
        ObjectType::Battlecruiser => 2,
        ObjectType::Harvester => 1,
    }
}

pub open spec fn recipe_radar_radius(otype: ObjectType) -> i64 {
    match otype {
        ObjectType::Asteroid => 0,
        ObjectType::Builder => 15_000,
        ObjectType::Battlecruiser => 20_000,
        ObjectType::Harvester => 10_000,
    }
}

pub open spec fn recipe_radar_type(otype: ObjectType) -> RadarType {
    match otype {
        ObjectType::Asteroid => RadarType::Absent,
        ObjectType::Builder => RadarType::Middle,
        ObjectType::Battlecruiser => RadarType::Military,
        ObjectType::Harvester => RadarType::Simple,
    }
}

pub open spec fn recipe_weapon_type(otype: ObjectType) -> WeaponType {
    match otype {
        ObjectType::Asteroid => WeaponType::Absent,
        ObjectType::Builder => WeaponType::Absent,
        ObjectType::Battlecruiser => WeaponType::Laser,
        ObjectType::Harvester => WeaponType::Mining,
    }
}

pub open spec fn recipe_weapon_radius(otype: ObjectType) -> i64 {
    match otype {
        ObjectType::Asteroid => 0,
        ObjectType::Builder => 0,
        ObjectType::Battlecruiser => 10_000,
        ObjectType::Harvester => 5_000,
    }
}

pub open spec fn recipe_cargo_type(otype: ObjectType) -> CargoType {
    match otype {
        ObjectType::Asteroid => CargoType::Mining,
        ObjectType::Builder => CargoType::Battery,
        ObjectType::Battlecruiser => CargoType::Battery,
        ObjectType::Harvester => CargoType::Mining,
    }
}

pub open spec fn recipe_cargo_max(otype: ObjectType) -> i64 {
    match otype {
        ObjectType::Asteroid => 1_000_000,
        ObjectType::Builder => 10_000,
        ObjectType::Battlecruiser => 50_000,
        ObjectType::Harvester => 100_000,
    }
}

pub open spec fn recipe_cargo_current(otype: ObjectType) -> i64 {
    match otype {
        ObjectType::Asteroid => 1_000_000,
        ObjectType::Builder => 0,
        ObjectType::Battlecruiser => 50_000,
        ObjectType::Harvester => 0,
    }
}

pub open spec fn recipe_health(otype: ObjectType) -> i64 {
    match otype {
        ObjectType::Asteroid => 100_000,
        ObjectType::Builder => 500_000,
        ObjectType::Battlecruiser => 200_000,
        ObjectType::Harvester => 30_000,
    }
}

pub open spec fn recipe_armor_type(otype: ObjectType) -> ArmorType {
    match otype {
        ObjectType::Asteroid => ArmorType::Asteroid,
        ObjectType::Builder => ArmorType::Building,
        ObjectType::Battlecruiser => ArmorType::Heavy,
        ObjectType::Harvester => ArmorType::Light,
    }
}

impl Clone for SampleObject {
    fn clone(&self) -> (res: Self)
        ensures
            res == *self,
    {
        SampleObject {
            owner: self.owner.clone(),
            name: self.name.clone(),
            otype: self.otype,
            x: self.x,
            y: self.y,
            drive_speed: self.drive_speed,
            drive_dest_x: self.drive_dest_x,
            drive_dest_y: self.drive_dest_y,
            radar_radius: self.radar_radius,
            radar_type: self.radar_type,
            weapon_active: self.weapon_active,
            weapon_type: self.weapon_type,
            weapon_radius: self.weapon_radius,
            weapon_target_x: self.weapon_target_x,
            weapon_target_y: self.weapon_target_y,
            cargo_type: self.cargo_type,
            cargo_max: self.cargo_max,
            cargo_current: self.cargo_current,
            shell_health: self.shell_health,
            shell_type: self.shell_type,
        }
    }
}

impl SampleObject {
    /// Well-formedness inside a world of size `w` by `h`: position and
    /// destination lie in the world, and drive, radar, weapon and cargo
    /// values are inside the engine's numeric limits.
    pub open spec fn wf(self, w: int, h: int) -> bool {
        &&& in_world(self.x as int, self.y as int, w, h)
        &&& in_world(self.drive_dest_x as int, self.drive_dest_y as int, w, h)
        &&& 0 <= self.drive_speed <= SPEED_MAX
        &&& 0 <= self.radar_radius <= WORLD_MAX
        &&& 0 <= self.weapon_radius <= WORLD_MAX
        &&& 0 <= self.cargo_current <= self.cargo_max
    }

    /// Builds a new entity from the archetype recipe for `otype`.
    pub fn new(owner: String, name: String, otype: ObjectType, x: i64, y: i64) -> (res: Self)
        ensures
            res == object_recipe(owner, name, otype, x, y),
    {
        let (drive_speed, radar_radius): (i64, i64) = match otype {
            ObjectType::Asteroid => (0, 0),
            ObjectType::Builder => (1, 15_000),
            ObjectType::Battlecruiser => (2, 20_000),
            ObjectType::Harvester => (1, 10_000),
        };
        let (radar_type, weapon_type): (RadarType, WeaponType) = match otype {
            ObjectType::Asteroid => (RadarType::Absent, WeaponType::Absent),
            ObjectType::Builder => (RadarType::Middle, WeaponType::Absent),
            ObjectType::Battlecruiser => (RadarType::Military, WeaponType::Laser),
            ObjectType::Harvester => (RadarType::Simple, WeaponType::Mining),
        };
        let (weapon_radius, cargo_type): (i64, CargoType) = match otype {
            ObjectType::Asteroid => (0, CargoType::Mining),
            ObjectType::Builder => (0, CargoType::Battery),
            ObjectType::Battlecruiser => (10_000, CargoType::Battery),
            ObjectType::Harvester => (5_000, CargoType::Mining),
        };
        let (cargo_max, cargo_current): (i64, i64) = match otype {
            ObjectType::Asteroid => (1_000_000, 1_000_000),
            ObjectType::Builder => (10_000, 0),
            ObjectType::Battlecruiser => (50_000, 50_000),
            ObjectType::Harvester => (100_000, 0),
        };
        let (shell_health, shell_type): (i64, ArmorType) = match otype {
            ObjectType::Asteroid => (100_000, ArmorType::Asteroid),
            ObjectType::Builder => (500_000, ArmorType::Building),
            ObjectType::Battlecruiser => (200_000, ArmorType::Heavy),
            ObjectType::Harvester => (30_000, ArmorType::Light),
        };
        SampleObject {
            owner,
            name,
            otype,
            x,
            y,
            drive_speed,
            drive_dest_x: x,
            drive_dest_y: y,
            radar_radius,
            radar_type,
            weapon_active: false,
            weapon_type,
            weapon_radius,
            weapon_target_x: 0,
            weapon_target_y: 0,
            cargo_type,
            cargo_max,
            cargo_current,
            shell_health,
            shell_type,
        }
    }

    /// Points the drive at a new destination.
    pub fn drive_move_to(&mut self, x: i64, y: i64)
        ensures
            *final(self) == (SampleObject { drive_dest_x: x, drive_dest_y: y, ..*old(self) }),
    {
        self.drive_dest_x = x;
        self.drive_dest_y = y;
    }

    /// Aims the weapon at a target and engages it.
    pub fn weapon_fire(&mut self, x: i64, y: i64)
        ensures
            *final(self) == (SampleObject {
                weapon_active: true,
                weapon_target_x: x,
                weapon_target_y: y,
                ..*old(self)
            }),
    {
        self.weapon_target_x = x;
        self.weapon_target_y = y;
        self.weapon_active = true;
    }

    /// Disengages the weapon.
    pub fn weapon_stop(&mut self)
        ensures
            *final(self) == (SampleObject { weapon_active: false, ..*old(self) }),
    {
        self.weapon_active = false;
    }

    /// Adds `size` units of cargo. Fails without mutation when the hold
    /// would overflow its capacity; the cargo invariant
    /// `0 <= current <= capacity` is preserved either way.
    pub fn cargo_add(&mut self, size: i64) -> (ok: bool)
        requires
            0 <= size,
            0 <= old(self).cargo_current <= old(self).cargo_max,
        ensures
            ok == (old(self).cargo_current + size <= old(self).cargo_max),
            ok ==> *final(self) == (SampleObject {
                cargo_current: (old(self).cargo_current + size) as i64,
                ..*old(self)
            }),
            !ok ==> *final(self) == *old(self),
            0 <= final(self).cargo_current <= final(self).cargo_max,
    {
        if size > self.cargo_max - self.cargo_current {
            return false;
        }
        self.cargo_current = self.cargo_current + size;
        true
    }

    /// Removes `size` units of cargo. Fails without mutation when the hold
    /// does not contain that much; the cargo invariant is preserved.
    pub fn cargo_remove(&mut self, size: i64) -> (ok: bool)
        requires
            0 <= size,
            0 <= old(self).cargo_current <= old(self).cargo_max,
        ensures
            ok == (old(self).cargo_current - size >= 0),
            ok ==> *final(self) == (SampleObject {
                cargo_current: (old(self).cargo_current - size) as i64,
                ..*old(self)
            }),
            !ok ==> *final(self) == *old(self),
            0 <= final(self).cargo_current <= final(self).cargo_max,
    {
        if size > self.cargo_current {
            return false;
        }
        self.cargo_current = self.cargo_current - size;
        true
    }

    /// Applies one hit of `dmg` milli-units from a weapon of kind `wtype`,
    /// scaled by the exact armor multiplier table.
    pub fn shell_damage(&mut self, wtype: WeaponType, dmg: i64)
        requires
            0 <= dmg <= DAMAGE_MAX,
        ensures
            *final(self) == (SampleObject {
                shell_health: damaged_health(
                    old(self).shell_health as int,
                    old(self).shell_type,
                    wtype,
                    dmg as int,
                ) as i64,
                ..*old(self)
            }),
    {
        let num: i64 = match wtype {
            WeaponType::Absent => 0,
            WeaponType::Mining => match self.shell_type {
                ArmorType::Asteroid => 1000,
                ArmorType::Light => 1,
                ArmorType::Middle => 0,
                ArmorType::Heavy => 0,
                ArmorType::Building => 0,
            },
            WeaponType::Laser => match self.shell_type {
                ArmorType::Asteroid => 1000,
                ArmorType::Light => 1000,
                ArmorType::Middle => 100,
                ArmorType::Heavy => 10,
                ArmorType::Building => 1,
            },
        };
        proof {
            assert(0 <= dmg * num <= 1_000_000_000_000_000_000) by (nonlinear_arith)
                requires
                    0 <= dmg <= DAMAGE_MAX,
                    0 <= num <= 1000,
            ;
        }
        let applied: i64 = dmg * num / 1000;
        if self.shell_health >= i64::MIN + applied {
            self.shell_health = self.shell_health - applied;
        } else {
            self.shell_health = i64::MIN;
        }
    }

    /// One movement step toward the drive destination: each axis moves by
    /// `speed * elapsed` independently, and the position is kept inside the
    /// world rectangle.
    pub fn engine_update(&mut self, elapsed: i64, world_w: i64, world_h: i64)
        requires
            old(self).wf(world_w as int, world_h as int),
            0 <= elapsed <= ELAPSED_MAX,
            1 <= world_w <= WORLD_MAX,
            1 <= world_h <= WORLD_MAX,
        ensures
            *final(self) == (SampleObject {
                x: axis_step(
                    old(self).x as int,
                    old(self).drive_dest_x as int,
                    step_len(old(self).drive_speed as int, elapsed as int),
                    world_w as int,
                ) as i64,
                y: axis_step(
                    old(self).y as int,
                    old(self).drive_dest_y as int,
                    step_len(old(self).drive_speed as int, elapsed as int),
                    world_h as int,
                ) as i64,
                ..*old(self)
            }),
            final(self).wf(world_w as int, world_h as int),
    {
        let step = step_length(self.drive_speed, elapsed);
        if self.x < self.drive_dest_x {
            self.x = clamp_coord(self.x + step, world_w);
        } else if self.x > self.drive_dest_x {
            self.x = clamp_coord(self.x - step, world_w);
        }
        if self.y < self.drive_dest_y {
            self.y = clamp_coord(self.y + step, world_h);
        } else if self.y > self.drive_dest_y {
            self.y = clamp_coord(self.y - step, world_h);
        }
    }

    /// Owner check: an absent required owner means no restriction.
    pub fn check_owner(&self, owner: Option<&String>) -> (ok: bool)
        ensures
            ok == match owner {
                Option::Some(o) => self.owner@ == o@,
                Option::None => true,
            },
    {
        match owner {
            Option::Some(o) => self.owner.eq(o),
            Option::None => true,
        }
    }
}

/// Clamps a coordinate into `[0, hi]`.
fn clamp_coord(v: i64, hi: i64) -> (r: i64)
    requires
        0 <= hi,
    ensures
        r == clamped(v as int, hi as int),
{
    if v < 0 {
        0
    } else if v > hi {
        hi
    } else {
        v
    }
}

} // verus!
