//! The transition relation of the event processor, as one deterministic
//! mathematical function per event kind. Each function maps the entity
//! sequence and a dequeued event to the new entity sequence and the events
//! emitted by that tick; the engine's executable processor is proved to
//! agree with it exactly.

use vstd::prelude::*;

use crate::events::{
    BuildEvent, DamageEvent, DestroyEvent, Event, MoveEvent, NetworkBuildEvent, NetworkFireEvent,
    NetworkMoveEvent,
};
use crate::geom::{axis_step, dist_sq, in_world, step_len};
use crate::object::{damaged_health, object_recipe, SampleObject, WeaponType};

verus! {

/// Cargo units that one shot consumes (Laser) or extracts (Mining).
pub const AMMO_UNIT: i64 = 1000;

/// Damage amount carried by the hit of one shot.
pub const FIRE_DAMAGE: i64 = 10_000;

/// Construction progress gained per time unit.
pub const BUILD_SPEED: i64 = 100;

/// Construction progress at which the built entity is created.
pub const BUILD_MAX_PROGRESS: i64 = 100_000;

/// Some entity of the sequence carries this name.
pub open spec fn has_name(objs: Seq<SampleObject>, name: Seq<char>) -> bool {
    exists|i: int| 0 <= i < objs.len() && objs[i].name@ == name
}

/// The index of the entity carrying `name`; meaningful whenever names are
/// unique and `has_name` holds.
pub open spec fn idx_of(objs: Seq<SampleObject>, name: Seq<char>) -> int {
    choose|i: int| 0 <= i < objs.len() && objs[i].name@ == name
}

/// At most one entity per name.
pub open spec fn names_unique(objs: Seq<SampleObject>) -> bool {
    forall|i: int, j: int| 0 <= i < j < objs.len() ==> objs[i].name@ != objs[j].name@
}

/// Every entity is well-formed for a world of size `w` by `h`.
pub open spec fn all_wf(objs: Seq<SampleObject>, w: int, h: int) -> bool {
    forall|i: int| 0 <= i < objs.len() ==> (#[trigger] objs[i]).wf(w, h)
}

/// Queue contents after enqueueing `es` in order onto the front of `q`
/// (the back of the queue is the processing end).
pub open spec fn enqueue_all(q: Seq<Event>, es: Seq<Event>) -> Seq<Event>
    decreases es.len(),
{
    if es.len() == 0 {
        q
    } else {
        seq![es.last()] + enqueue_all(q, es.drop_last())
    }
}

/// A movement command: with a destination inside the world and a correctly
/// owned entity, the drive destination is set and a `Move` continuation is
/// emitted; otherwise the request is dropped without any effect.
pub open spec fn step_move_request(
    objs: Seq<SampleObject>,
    m: NetworkMoveEvent,
    w: int,
    h: int,
) -> (Seq<SampleObject>, Seq<Event>) {
    if in_world(m.dest_x as int, m.dest_y as int, w, h) && has_name(objs, m.name@) && objs[
        idx_of(objs, m.name@)
    ].owner@ == m.owner@ {
        let i = idx_of(objs, m.name@);
        (
            objs.update(
                i,
                SampleObject { drive_dest_x: m.dest_x, drive_dest_y: m.dest_y, ..objs[i] },
            ),
            seq![Event::Move(MoveEvent { name: m.name, dest_x: m.dest_x, dest_y: m.dest_y })],
        )
    } else {
        (objs, Seq::empty())
    }
}

/// The entity after a successful shot: weapon engaged on the target and
/// cargo at `new_cargo`.
pub open spec fn fired_object(o: SampleObject, f: NetworkFireEvent, new_cargo: i64) -> SampleObject {
    SampleObject {
        weapon_active: true,
        weapon_target_x: f.dest_x,
        weapon_target_y: f.dest_y,
        cargo_current: new_cargo,
        ..o
    }
}

/// The area hit emitted by a successful shot of entity `o`.
pub open spec fn shot_damage_event(o: SampleObject, f: NetworkFireEvent) -> Event {
    Event::Damage(
        DamageEvent {
            x: f.dest_x,
            y: f.dest_y,
            size: o.weapon_radius,
            d_type: o.weapon_type,
            damage: FIRE_DAMAGE,
        },
    )
}

/// A fire command: with a target inside the world and a correctly owned
/// entity, the weapon's resource operation is attempted — a Laser consumes
/// one cargo unit of ammunition, a Mining weapon extracts one cargo unit.
/// On success the weapon engages and the hit is emitted; on failure the
/// weapon is deactivated and the shot is suppressed. An entity without a
/// weapon, or a request that fails validation, changes nothing.
pub open spec fn step_fire_request(
    objs: Seq<SampleObject>,
    f: NetworkFireEvent,
    w: int,
    h: int,
) -> (Seq<SampleObject>, Seq<Event>) {
    if in_world(f.dest_x as int, f.dest_y as int, w, h) && has_name(objs, f.name@) && objs[
        idx_of(objs, f.name@)
    ].owner@ == f.owner@ {
        let i = idx_of(objs, f.name@);
        let o = objs[i];
        match o.weapon_type {
            WeaponType::Absent => (objs, Seq::empty()),
            WeaponType::Mining => if o.cargo_current + AMMO_UNIT <= o.cargo_max {
                (
                    objs.update(i, fired_object(o, f, (o.cargo_current + AMMO_UNIT) as i64)),
                    seq![shot_damage_event(o, f)],
                )
            } else {
                (objs.update(i, SampleObject { weapon_active: false, ..o }), Seq::empty())
            },
            WeaponType::Laser => if o.cargo_current - AMMO_UNIT >= 0 {
                (
                    objs.update(i, fired_object(o, f, (o.cargo_current - AMMO_UNIT) as i64)),
                    seq![shot_damage_event(o, f)],
                )
            } else {
                (objs.update(i, SampleObject { weapon_active: false, ..o }), Seq::empty())
            },
        }
    } else {
        (objs, Seq::empty())
    }
}

/// A build command: with a correctly owned builder entity, a fresh `Build`
/// continuation is emitted; otherwise the request is dropped.
pub open spec fn step_build_request(
    objs: Seq<SampleObject>,
    b: NetworkBuildEvent,
) -> (Seq<SampleObject>, Seq<Event>) {
    if has_name(objs, b.name@) && objs[idx_of(objs, b.name@)].owner@ == b.owner@ {
        (
            objs,
            seq![
                Event::Build(
                    BuildEvent {
                        name: b.name,
                        b_name: b.b_name,
                        b_type: b.b_type,
                        speed: BUILD_SPEED,
                        progress: 0,
                        max_progress: BUILD_MAX_PROGRESS,
                    },
                )
            ],
        )
    } else {
        (objs, Seq::empty())
    }
}

/// A movement continuation, chasing the entity's live drive destination.
/// Within one step of the destination the entity snaps exactly onto it and
/// the process ends; otherwise it steps toward the destination on each
/// axis independently and the continuation is re-emitted. No ownership
/// check: this is an internal event.
pub open spec fn step_move(
    objs: Seq<SampleObject>,
    m: MoveEvent,
    elapsed: int,
    w: int,
    h: int,
) -> (Seq<SampleObject>, Seq<Event>) {
    if has_name(objs, m.name@) {
        let i = idx_of(objs, m.name@);
        let o = objs[i];
        let s = step_len(o.drive_speed as int, elapsed);
        if dist_sq(o.x as int, o.y as int, o.drive_dest_x as int, o.drive_dest_y as int) <= s * s {
            (
                objs.update(i, SampleObject { x: o.drive_dest_x, y: o.drive_dest_y, ..o }),
                Seq::empty(),
            )
        } else {
            (
                objs.update(
                    i,
                    SampleObject {
                        x: axis_step(o.x as int, o.drive_dest_x as int, s, w) as i64,
                        y: axis_step(o.y as int, o.drive_dest_y as int, s, h) as i64,
                        ..o
                    },
                ),
                seq![Event::Move(m)],
            )
        }
    } else {
        (objs, Seq::empty())
    }
}

/// A destruction event: the named entity leaves the store; nothing else.
pub open spec fn step_destroy(
    objs: Seq<SampleObject>,
    d: DestroyEvent,
) -> (Seq<SampleObject>, Seq<Event>) {
    if has_name(objs, d.name@) {
        (objs.remove(idx_of(objs, d.name@)), Seq::empty())
    } else {
        (objs, Seq::empty())
    }
}

/// The hit test of an area damage event: inclusive Euclidean range.
pub open spec fn hit(o: SampleObject, d: DamageEvent) -> bool {
    dist_sq(o.x as int, o.y as int, d.x as int, d.y as int) <= d.size * d.size
}

/// One entity after an area damage event: a hit entity takes the scaled
/// damage, everything else is untouched.
pub open spec fn damage_one(o: SampleObject, d: DamageEvent) -> SampleObject {
    if hit(o, d) {
        SampleObject {
            shell_health: damaged_health(
                o.shell_health as int,
                o.shell_type,
                d.d_type,
                d.damage as int,
            ) as i64,
            ..o
        }
    } else {
        o
    }
}

/// This hit drove the entity from alive to destroyed.
pub open spec fn killed(o: SampleObject, d: DamageEvent) -> bool {
    hit(o, d) && o.shell_health > 0 && damage_one(o, d).shell_health <= 0
}

/// The destruction events collected while scanning the first `n` entities:
/// exactly one per entity driven to zero or below by this hit, in scan
/// order, flushed only after the scan.
pub open spec fn destroys_upto(objs: Seq<SampleObject>, d: DamageEvent, n: int) -> Seq<Event>
    decreases n,
{
    if n <= 0 {
        Seq::empty()
    } else {
        destroys_upto(objs, d, n - 1) + if killed(objs[n - 1], d) {
            seq![Event::Destroy(DestroyEvent { name: objs[n - 1].name })]
        } else {
            Seq::empty()
        }
    }
}

/// An area damage event: every entity within the radius takes the scaled
/// damage, and one destruction event is emitted for each entity this hit
/// destroyed. A malformed payload is dropped.
pub open spec fn step_damage(
    objs: Seq<SampleObject>,
    d: DamageEvent,
    w: int,
    h: int,
) -> (Seq<SampleObject>, Seq<Event>) {
    if d.valid(w, h) {
        (
            Seq::new(objs.len(), |i: int| damage_one(objs[i], d)),
            destroys_upto(objs, d, objs.len() as int),
        )
    } else {
        (objs, Seq::empty())
    }
}

/// Completion of a construction: if the builder still exists and the built
/// name is still free, the new entity is created at the builder's position
/// with the builder's owner; otherwise nothing happens.
pub open spec fn build_complete(objs: Seq<SampleObject>, b: BuildEvent) -> Seq<SampleObject> {
    if has_name(objs, b.name@) && !has_name(objs, b.b_name@) {
        let builder = objs[idx_of(objs, b.name@)];
        objs.push(object_recipe(builder.owner, b.b_name, b.b_type, builder.x, builder.y))
    } else {
        objs
    }
}

/// A construction continuation: progress grows by `speed * elapsed`; the
/// built entity is created exactly on the tick that reaches the target,
/// otherwise the continuation is re-emitted with the new progress. A
/// malformed payload is dropped.
pub open spec fn step_build(
    objs: Seq<SampleObject>,
    b: BuildEvent,
    elapsed: int,
) -> (Seq<SampleObject>, Seq<Event>) {
    if b.valid() {
        if b.progress >= b.max_progress {
            (build_complete(objs, b), Seq::empty())
        } else {
            let p = b.progress + step_len(b.speed as int, elapsed);
            if p >= b.max_progress {
                (build_complete(objs, b), Seq::empty())
            } else {
                (objs, seq![Event::Build(BuildEvent { progress: p as i64, ..b })])
            }
        }
    } else {
        (objs, Seq::empty())
    }
}

/// The whole transition of one tick that dequeued `ev`: the new entity
/// sequence and the events this tick emits, oldest first.
pub open spec fn step(
    objs: Seq<SampleObject>,
    ev: Event,
    elapsed: int,
    w: int,
    h: int,
) -> (Seq<SampleObject>, Seq<Event>) {
    match ev {
        Event::MoveRequest(m) => step_move_request(objs, m, w, h),
        Event::FireRequest(f) => step_fire_request(objs, f, w, h),
        Event::BuildRequest(b) => step_build_request(objs, b),
        Event::Move(m) => step_move(objs, m, elapsed, w, h),
        Event::Destroy(d) => step_destroy(objs, d),
        Event::Damage(d) => step_damage(objs, d, w, h),
        Event::Build(b) => step_build(objs, b, elapsed),
    }
}

/// Enqueueing nothing leaves the queue alone.
pub proof fn lemma_enqueue_none(q: Seq<Event>)
    ensures
        enqueue_all(q, Seq::empty()) == q,
{
}

/// Enqueueing one event puts it at the front.
pub proof fn lemma_enqueue_one(q: Seq<Event>, e: Event)
    ensures
        enqueue_all(q, seq![e]) == seq![e] + q,
{
    assert(seq![e].drop_last() =~= Seq::<Event>::empty());
    assert(enqueue_all(q, seq![e]) == seq![e] + enqueue_all(q, Seq::empty()));
}

/// Enqueueing one event more enqueues it after the others.
pub proof fn lemma_enqueue_snoc(q: Seq<Event>, es: Seq<Event>, e: Event)
    ensures
        enqueue_all(q, es + seq![e]) == seq![e] + enqueue_all(q, es),
{
    assert((es + seq![e]).last() == e);
    assert((es + seq![e]).drop_last() =~= es);
}

/// An entity found at an index is the entity `idx_of` names, whenever
/// names are unique.
pub proof fn lemma_idx_of(objs: Seq<SampleObject>, name: Seq<char>, i: int)
    requires
        names_unique(objs),
        0 <= i < objs.len(),
        objs[i].name@ == name,
    ensures
        has_name(objs, name),
        idx_of(objs, name) == i,
{
    assert(has_name(objs, name));
    let j = idx_of(objs, name);
    assert(0 <= j < objs.len() && objs[j].name@ == name);
    if i < j {
        assert(objs[i].name@ != objs[j].name@);
    } else if j < i {
        assert(objs[j].name@ != objs[i].name@);
    }
}

} // verus!
