//! The game engine: the entity store (keyed by unique names), the FIFO
//! event queue, and the per-tick event processor. One event is dequeued
//! and resolved per tick; follow-up events are appended to the queue, so
//! multi-tick processes (movement, construction) are trampolined through
//! the queue rather than recursing.

use std::collections::VecDeque;
use vstd::prelude::*;

use crate::events::{
    BuildEvent, DamageEvent, DestroyEvent, Event, MoveEvent, NetworkBuildEvent, NetworkFireEvent,
    NetworkMoveEvent,
};
use crate::geom::{
    dist_sq, in_world, step_length, within_range, DAMAGE_MAX, ELAPSED_MAX, PROGRESS_MAX, SPEED_MAX,
    WORLD_MAX,
};
use crate::object::{object_recipe, ObjectType, RadarType, SampleObject, WeaponType};
use crate::step::{
    all_wf, build_complete, damage_one, destroys_upto, enqueue_all, fired_object, has_name, hit,
    idx_of, killed, lemma_enqueue_none, lemma_enqueue_one, lemma_enqueue_snoc, lemma_idx_of,
    names_unique,
    shot_damage_event, step, step_build, step_build_request, step_damage, step_destroy,
    step_fire_request, step_move, step_move_request, AMMO_UNIT, BUILD_MAX_PROGRESS, BUILD_SPEED,
    FIRE_DAMAGE,
};

verus! {

/// Status block exposed to administrative queries.
pub struct ServerInfo {
    pub name: String,
    pub status: String,
    pub tps: u16,
}

/// Immutable configuration read once at startup.
pub struct GameConfig {
    pub servername: String,
}

impl GameConfig {
    /// Builds the configuration from the server name it carries.
    pub fn new(servername: String) -> (c: Self)
        ensures
            c.servername == servername,
    {
        GameConfig { servername }
    }
}

/// An invariant violation surfaced to the caller of a mutating store
/// operation: these indicate a programming or configuration defect, never
/// a normal game-play race.
#[derive(Clone, Copy, PartialEq, Eq, Structural, Debug)]
pub enum StoreError {
    DuplicateName,
}

/// The simulation core. All world quantities are fixed-point milli-units.
pub struct GameEngine {
    pub info: ServerInfo,
    pub objects: Vec<SampleObject>,
    pub world_size_x: i64,
    pub world_size_y: i64,
    pub events: VecDeque<Event>,
    pub config: GameConfig,
}

impl GameEngine {
    /// The engine's invariant: a world of bounded positive size, at most
    /// one entity per name, and every entity well-formed for this world.
    pub open spec fn wf(self) -> bool {
        &&& 1 <= self.world_size_x <= WORLD_MAX
        &&& 1 <= self.world_size_y <= WORLD_MAX
        &&& names_unique(self.objects@)
        &&& all_wf(self.objects@, self.world_size_x as int, self.world_size_y as int)
    }

    /// The parts of the engine the processor never touches.
    pub open spec fn same_frame(self, other: GameEngine) -> bool {
        &&& self.info == other.info
        &&& self.world_size_x == other.world_size_x
        &&& self.world_size_y == other.world_size_y
        &&& self.config == other.config
    }

    /// Creates an empty world of the given size.
    pub fn new(width: i64, height: i64, config: GameConfig) -> (e: Self)
        requires
            1 <= width <= WORLD_MAX,
            1 <= height <= WORLD_MAX,
        ensures
            e.wf(),
            e.objects@ == Seq::<SampleObject>::empty(),
            e.events@ == Seq::<Event>::empty(),
            e.world_size_x == width,
            e.world_size_y == height,
            e.info.name == config.servername,
            e.info.status@ == "Ok"@,
            e.info.tps == 0,
            e.config == config,
    {
        let name = config.servername.clone();
        GameEngine {
            objects: Vec::new(),
            info: ServerInfo { name, status: "Ok".to_owned(), tps: 0u16 },
            world_size_x: width,
            world_size_y: height,
            events: VecDeque::new(),
            config,
        }
    }

    /// Publishes a fresh ticks-per-second measurement.
    pub fn update_tps(&mut self, tps: u16)
        ensures
            final(self).info.tps == tps,
            final(self).info.name == old(self).info.name,
            final(self).info.status == old(self).info.status,
            final(self).objects == old(self).objects,
            final(self).events == old(self).events,
            final(self).world_size_x == old(self).world_size_x,
            final(self).world_size_y == old(self).world_size_y,
            final(self).config == old(self).config,
    {
        self.info.tps = tps;
    }

    /// Appends an event to the queue. This is the only mutation the
    /// request-handling side may perform; the event is processed after
    /// everything already pending.
    pub fn add_event(&mut self, event: Event)
        ensures
            final(self).events@ == seq![event] + old(self).events@,
            final(self).objects == old(self).objects,
            final(self).same_frame(*old(self)),
            old(self).wf() ==> final(self).wf(),
    {
        self.events.push_front(event);
    }

    /// Finds the index of the entity named `name`, scanning from the
    /// front of the store.
    fn find_index(&self, name: &String) -> (r: Option<usize>)
        ensures
            match r {
                Option::Some(i) => i < self.objects@.len() && self.objects@[i as int].name@
                    == name@,
                Option::None => !has_name(self.objects@, name@),
            },
    {
        let n = self.objects.len();
        let mut i: usize = 0;
        while i < n
            invariant
                n == self.objects@.len(),
                i <= n,
                forall|j: int| 0 <= j < i ==> self.objects@[j].name@ != name@,
            decreases n - i,
        {
            if self.objects[i].name.eq(name) {
                return Option::Some(i);
            }
            i = i + 1;
        }
        Option::None
    }

    /// True when `object`'s owner matches the required owner; an absent
    /// required owner means no restriction.
    pub fn check_object_owner(&self, object: &SampleObject, owner: Option<&String>) -> (ok: bool)
        ensures
            ok == match owner {
                Option::Some(o) => object.owner@ == o@,
                Option::None => true,
            },
    {
        object.check_owner(owner)
    }

    /// True when an entity named `name` exists and, if an owner is
    /// required, is owned by it. A missing entity and an ownership
    /// mismatch are indistinguishable from the outside.
    pub fn check_object_exsists(&self, name: &String, owner: Option<&String>) -> (ok: bool)
        requires
            self.wf(),
        ensures
            ok == (has_name(self.objects@, name@) && match owner {
                Option::Some(o) => self.objects@[idx_of(self.objects@, name@)].owner@ == o@,
                Option::None => true,
            }),
    {
        match self.find_index(name) {
            Option::Some(i) => {
                proof {
                    lemma_idx_of(self.objects@, name@, i as int);
                }
                self.check_object_owner(&self.objects[i], owner)
            },
            Option::None => false,
        }
    }

    /// Looks up an entity by name; when an owner is required, an entity
    /// held by someone else is reported exactly like a missing one.
    pub fn get_object(&self, name: &String, owner: Option<&String>) -> (r: Option<&SampleObject>)
        requires
            self.wf(),
        ensures
            match r {
                Option::Some(o) => has_name(self.objects@, name@) && *o == self.objects@[
                    idx_of(self.objects@, name@)
                ] && match owner {
                    Option::Some(ow) => o.owner@ == ow@,
                    Option::None => true,
                },
                Option::None => !(has_name(self.objects@, name@) && match owner {
                    Option::Some(ow) => self.objects@[idx_of(self.objects@, name@)].owner@ == ow@,
                    Option::None => true,
                }),
            },
    {
        match self.find_index(name) {
            Option::Some(i) => {
                proof {
                    lemma_idx_of(self.objects@, name@, i as int);
                }
                let o = &self.objects[i];
                if self.check_object_owner(o, owner) {
                    Option::Some(o)
                } else {
                    Option::None
                }
            },
            Option::None => Option::None,
        }
    }

    /// Looks up an entity owned by `owner` and returns a copy of it.
    pub fn get_object_with_owner(&self, name: String, owner: String) -> (r: Option<SampleObject>)
        requires
            self.wf(),
        ensures
            match r {
                Option::Some(o) => has_name(self.objects@, name@) && o == self.objects@[
                    idx_of(self.objects@, name@)
                ] && o.owner@ == owner@,
                Option::None => !(has_name(self.objects@, name@) && self.objects@[
                    idx_of(self.objects@, name@)
                ].owner@ == owner@),
            },
    {
        match self.get_object(&name, Option::Some(&owner)) {
            Option::Some(o) => Option::Some(o.clone()),
            Option::None => Option::None,
        }
    }

    /// Creates a new entity from the archetype recipe and stores it.
    /// A duplicate name is an invariant violation, surfaced as an error
    /// and changing nothing.
    pub fn add_object(
        &mut self,
        object_name: String,
        coord_x: i64,
        coord_y: i64,
        otype: ObjectType,
        owner: String,
    ) -> (r: Result<(), StoreError>)
        requires
            old(self).wf(),
            in_world(
                coord_x as int,
                coord_y as int,
                old(self).world_size_x as int,
                old(self).world_size_y as int,
            ),
        ensures
            final(self).wf(),
            final(self).same_frame(*old(self)),
            final(self).events == old(self).events,
            match r {
                Result::Ok(()) => !has_name(old(self).objects@, object_name@)
                    && final(self).objects@ == old(self).objects@.push(
                    object_recipe(owner, object_name, otype, coord_x, coord_y),
                ),
                Result::Err(StoreError::DuplicateName) => has_name(
                    old(self).objects@,
                    object_name@,
                ) && final(self).objects == old(self).objects,
            },
    {
        match self.find_index(&object_name) {
            Option::Some(i) => {
                proof {
                    lemma_idx_of(self.objects@, object_name@, i as int);
                }
                Result::Err(StoreError::DuplicateName)
            },
            Option::None => {
                let obj = SampleObject::new(owner, object_name, otype, coord_x, coord_y);
                self.objects.push(obj);
                Result::Ok(())
            },
        }
    }
    /// Resolves a movement command (see `step_move_request`).
    fn handle_move_request(&mut self, m: NetworkMoveEvent)
        requires
            old(self).wf(),
        ensures
            final(self).wf(),
            final(self).same_frame(*old(self)),
            ({
                let (objs2, emitted) = step_move_request(
                    old(self).objects@,
                    m,
                    old(self).world_size_x as int,
                    old(self).world_size_y as int,
                );
                final(self).objects@ == objs2 && final(self).events@ == enqueue_all(
                    old(self).events@,
                    emitted,
                )
            }),
    {
        proof {
            lemma_enqueue_none(self.events@);
        }
        if !(0 <= m.dest_x && m.dest_x <= self.world_size_x && 0 <= m.dest_y && m.dest_y
            <= self.world_size_y) {
            return ;
        }
        match self.find_index(&m.name) {
            Option::None => {},
            Option::Some(i) => {
                proof {
                    lemma_idx_of(self.objects@, m.name@, i as int);
                }
                if self.objects[i].owner.eq(&m.owner) {
                    let mut obj = self.objects[i].clone();
                    obj.drive_move_to(m.dest_x, m.dest_y);
                    self.objects[i] = obj;
                    let ev = Event::Move(
                        MoveEvent { name: m.name, dest_x: m.dest_x, dest_y: m.dest_y },
                    );
                    proof {
                        lemma_enqueue_one(self.events@, ev);
                    }
                    self.events.push_front(ev);
                }
            },
        }
    }

    /// Resolves a build command (see `step_build_request`).
    fn handle_build_request(&mut self, b: NetworkBuildEvent)
        requires
            old(self).wf(),
        ensures
            final(self).wf(),
            final(self).same_frame(*old(self)),
            ({
                let (objs2, emitted) = step_build_request(old(self).objects@, b);
                final(self).objects@ == objs2 && final(self).events@ == enqueue_all(
                    old(self).events@,
                    emitted,
                )
            }),
    {
        proof {
            lemma_enqueue_none(self.events@);
        }
        match self.find_index(&b.name) {
            Option::None => {},
            Option::Some(i) => {
                proof {
                    lemma_idx_of(self.objects@, b.name@, i as int);
                }
                if self.objects[i].owner.eq(&b.owner) {
                    let ev = Event::Build(
                        BuildEvent {
                            name: b.name,
                            b_name: b.b_name,
                            b_type: b.b_type,
                            speed: BUILD_SPEED,
                            progress: 0,
                            max_progress: BUILD_MAX_PROGRESS,
                        },
                    );
                    proof {
                        lemma_enqueue_one(self.events@, ev);
                    }
                    self.events.push_front(ev);
                }
            },
        }
    }

    /// Resolves a fire command (see `step_fire_request`).
    fn handle_fire_request(&mut self, f: NetworkFireEvent)
        requires
            old(self).wf(),
        ensures
            final(self).wf(),
            final(self).same_frame(*old(self)),
            ({
                let (objs2, emitted) = step_fire_request(
                    old(self).objects@,
                    f,
                    old(self).world_size_x as int,
                    old(self).world_size_y as int,
                );
                final(self).objects@ == objs2 && final(self).events@ == enqueue_all(
                    old(self).events@,
                    emitted,
                )
            }),
    {
        proof {
            lemma_enqueue_none(self.events@);
        }
        if !(0 <= f.dest_x && f.dest_x <= self.world_size_x && 0 <= f.dest_y && f.dest_y
            <= self.world_size_y) {
            return ;
        }
        match self.find_index(&f.name) {
            Option::None => {},
            Option::Some(i) => {
                proof {
                    lemma_idx_of(self.objects@, f.name@, i as int);
                    assert(self.objects@[i as int].wf(
                        self.world_size_x as int,
                        self.world_size_y as int,
                    ));
                }
                if self.objects[i].owner.eq(&f.owner) {
                    let mut obj = self.objects[i].clone();
                    let ok: bool = match obj.weapon_type {
                        WeaponType::Absent => {
                            return ;
                        },
                        WeaponType::Mining => obj.cargo_add(AMMO_UNIT),
                        WeaponType::Laser => obj.cargo_remove(AMMO_UNIT),
                    };
                    if ok {
                        let ev = Event::Damage(
                            DamageEvent {
                                x: f.dest_x,
                                y: f.dest_y,
                                size: obj.weapon_radius,
                                d_type: obj.weapon_type,
                                damage: FIRE_DAMAGE,
                            },
                        );
                        obj.weapon_fire(f.dest_x, f.dest_y);
                        self.objects[i] = obj;
                        proof {
                            lemma_enqueue_one(self.events@, ev);
                        }
                        self.events.push_front(ev);
                    } else {
                        obj.weapon_stop();
                        self.objects[i] = obj;
                    }
                }
            },
        }
    }

    /// Resolves one step of a movement continuation (see `step_move`).
    fn handle_move(&mut self, m: MoveEvent, elapsed: i64)
        requires
            old(self).wf(),
            0 <= elapsed <= ELAPSED_MAX,
        ensures
            final(self).wf(),
            final(self).same_frame(*old(self)),
            ({
                let (objs2, emitted) = step_move(
                    old(self).objects@,
                    m,
                    elapsed as int,
                    old(self).world_size_x as int,
                    old(self).world_size_y as int,
                );
                final(self).objects@ == objs2 && final(self).events@ == enqueue_all(
                    old(self).events@,
                    emitted,
                )
            }),
    {
        proof {
            lemma_enqueue_none(self.events@);
        }
        match self.find_index(&m.name) {
            Option::None => {},
            Option::Some(i) => {
                proof {
                    lemma_idx_of(self.objects@, m.name@, i as int);
                    assert(self.objects@[i as int].wf(
                        self.world_size_x as int,
                        self.world_size_y as int,
                    ));
                }
                let o = &self.objects[i];
                let s = step_length(o.drive_speed, elapsed);
                if within_range(o.x, o.y, o.drive_dest_x, o.drive_dest_y, s) {
                    let mut obj = self.objects[i].clone();
                    obj.x = obj.drive_dest_x;
                    obj.y = obj.drive_dest_y;
                    self.objects[i] = obj;
                } else {
                    let mut obj = self.objects[i].clone();
                    obj.engine_update(elapsed, self.world_size_x, self.world_size_y);
                    self.objects[i] = obj;
                    let ev = Event::Move(m);
                    proof {
                        lemma_enqueue_one(self.events@, ev);
                    }
                    self.events.push_front(ev);
                }
            },
        }
    }

    /// Creates the built entity at its builder's position, with the
    /// builder's owner (see `build_complete`).
    fn complete_build(&mut self, b: BuildEvent)
        requires
            old(self).wf(),
        ensures
            final(self).wf(),
            final(self).same_frame(*old(self)),
            final(self).events == old(self).events,
            final(self).objects@ == build_complete(old(self).objects@, b),
    {
        match self.find_index(&b.name) {
            Option::None => {},
            Option::Some(i) => {
                proof {
                    lemma_idx_of(self.objects@, b.name@, i as int);
                    assert(self.objects@[i as int].wf(
                        self.world_size_x as int,
                        self.world_size_y as int,
                    ));
                }
                match self.find_index(&b.b_name) {
                    Option::Some(j) => {
                        proof {
                            lemma_idx_of(self.objects@, b.b_name@, j as int);
                        }
                    },
                    Option::None => {
                        let builder = &self.objects[i];
                        let owner = builder.owner.clone();
                        let x = builder.x;
                        let y = builder.y;
                        let obj = SampleObject::new(owner, b.b_name, b.b_type, x, y);
                        self.objects.push(obj);
                    },
                }
            },
        }
    }

    /// Resolves one step of a construction continuation (see `step_build`).
    fn handle_build(&mut self, b: BuildEvent, elapsed: i64)
        requires
            old(self).wf(),
            0 <= elapsed <= ELAPSED_MAX,
        ensures
            final(self).wf(),
            final(self).same_frame(*old(self)),
            ({
                let (objs2, emitted) = step_build(old(self).objects@, b, elapsed as int);
                final(self).objects@ == objs2 && final(self).events@ == enqueue_all(
                    old(self).events@,
                    emitted,
                )
            }),
    {
        proof {
            lemma_enqueue_none(self.events@);
        }
        if !(0 <= b.progress && 0 < b.max_progress && b.max_progress <= PROGRESS_MAX && 0 <= b.speed
            && b.speed <= SPEED_MAX) {
            return ;
        }
        if b.progress >= b.max_progress {
            self.complete_build(b);
        } else {
            let s = step_length(b.speed, elapsed);
            let p = b.progress + s;
            if p >= b.max_progress {
                self.complete_build(b);
            } else {
                let ev = Event::Build(BuildEvent { progress: p, ..b });
                proof {
                    lemma_enqueue_one(self.events@, ev);
                }
                self.events.push_front(ev);
            }
        }
    }

    /// Resolves an area damage event (see `step_damage`): one scan over
    /// the whole store, applying the armor multiplier table to every
    /// entity in range, and one destruction event per entity this hit
    /// destroyed. The store itself is never restructured during the scan.
    fn handle_damage(&mut self, d: DamageEvent)
        requires
            old(self).wf(),
        ensures
            final(self).wf(),
            final(self).same_frame(*old(self)),
            ({
                let (objs2, emitted) = step_damage(
                    old(self).objects@,
                    d,
                    old(self).world_size_x as int,
                    old(self).world_size_y as int,
                );
                final(self).objects@ == objs2 && final(self).events@ == enqueue_all(
                    old(self).events@,
                    emitted,
                )
            }),
    {
        proof {
            lemma_enqueue_none(self.events@);
        }
        let w = self.world_size_x;
        let h = self.world_size_y;
        if !(0 <= d.x && d.x <= w && 0 <= d.y && d.y <= h && 0 <= d.size && d.size <= WORLD_MAX && 0
            <= d.damage && d.damage <= DAMAGE_MAX) {
            return ;
        }
        let ghost orig = self.objects@;
        let ghost q0 = self.events@;
        let n = self.objects.len();
        let mut i: usize = 0;
        while i < n
            invariant
                n == self.objects@.len(),
                orig.len() == n,
                i <= n,
                d.valid(w as int, h as int),
                1 <= w <= WORLD_MAX,
                1 <= h <= WORLD_MAX,
                self.world_size_x == w,
                self.world_size_y == h,
                names_unique(orig),
                all_wf(orig, w as int, h as int),
                self.info == old(self).info,
                self.config == old(self).config,
                forall|j: int| i <= j < n ==> self.objects@[j] == orig[j],
                forall|j: int| 0 <= j < i ==> self.objects@[j] == damage_one(orig[j], d),
                self.events@ == enqueue_all(q0, destroys_upto(orig, d, i as int)),
            decreases n - i,
        {
            proof {
                assert(orig[i as int].wf(w as int, h as int));
            }
            let o = &self.objects[i];
            let was_alive = o.shell_health > 0;
            if within_range(o.x, o.y, d.x, d.y, d.size) {
                let mut obj = self.objects[i].clone();
                obj.shell_damage(d.d_type, d.damage);
                if was_alive && obj.shell_health <= 0 {
                    let ev = Event::Destroy(DestroyEvent { name: obj.name.clone() });
                    proof {
                        assert(killed(orig[i as int], d));
                        assert(destroys_upto(orig, d, i as int + 1) == destroys_upto(
                            orig,
                            d,
                            i as int,
                        ) + seq![ev]);
                        lemma_enqueue_snoc(q0, destroys_upto(orig, d, i as int), ev);
                    }
                    self.events.push_front(ev);
                } else {
                    proof {
                        assert(!killed(orig[i as int], d));
                        assert(destroys_upto(orig, d, i as int + 1) =~= destroys_upto(
                            orig,
                            d,
                            i as int,
                        ));
                    }
                }
                self.objects[i] = obj;
            } else {
                proof {
                    assert(!hit(orig[i as int], d));
                    assert(!killed(orig[i as int], d));
                    assert(destroys_upto(orig, d, i as int + 1) =~= destroys_upto(
                        orig,
                        d,
                        i as int,
                    ));
                    assert(damage_one(orig[i as int], d) == orig[i as int]);
                }
            }
            i = i + 1;
        }
        proof {
            assert(self.objects@ =~= Seq::new(orig.len(), |j: int| damage_one(orig[j], d)));
        }
    }

    /// Resolves a destruction event (see `step_destroy`).
    fn handle_destroy(&mut self, d: DestroyEvent)
        requires
            old(self).wf(),
        ensures
            final(self).wf(),
            final(self).same_frame(*old(self)),
            ({
                let (objs2, emitted) = step_destroy(old(self).objects@, d);
                final(self).objects@ == objs2 && final(self).events@ == enqueue_all(
                    old(self).events@,
                    emitted,
                )
            }),
    {
        proof {
            lemma_enqueue_none(self.events@);
        }
        match self.find_index(&d.name) {
            Option::None => {},
            Option::Some(i) => {
                proof {
                    lemma_idx_of(self.objects@, d.name@, i as int);
                }
                self.objects.remove(i);
            },
        }
    }
    /// Dispatches one dequeued event to its arm of the state machine.
    fn process_event(&mut self, ev: Event, elapsed: i64)
        requires
            old(self).wf(),
            0 <= elapsed <= ELAPSED_MAX,
        ensures
            final(self).wf(),
            final(self).same_frame(*old(self)),
            ({
                let (objs2, emitted) = step(
                    old(self).objects@,
                    ev,
                    elapsed as int,
                    old(self).world_size_x as int,
                    old(self).world_size_y as int,
                );
                final(self).objects@ == objs2 && final(self).events@ == enqueue_all(
                    old(self).events@,
                    emitted,
                )
            }),
    {
        match ev {
            Event::MoveRequest(m) => self.handle_move_request(m),
            Event::FireRequest(f) => self.handle_fire_request(f),
            Event::BuildRequest(b) => self.handle_build_request(b),
            Event::Move(m) => self.handle_move(m, elapsed),
            Event::Destroy(d) => self.handle_destroy(d),
            Event::Damage(d) => self.handle_damage(d),
            Event::Build(b) => self.handle_build(b, elapsed),
        }
    }

    /// One tick: dequeues the oldest pending event, if any, and resolves
    /// it according to the transition function `step`, appending whatever
    /// events the transition emits. With an empty queue the tick does
    /// nothing.
    pub fn game_loop(&mut self, elapsed: i64)
        requires
            old(self).wf(),
            0 <= elapsed <= ELAPSED_MAX,
        ensures
            final(self).wf(),
            final(self).same_frame(*old(self)),
            old(self).events@.len() == 0 ==> final(self).objects == old(self).objects
                && final(self).events@ == old(self).events@,
            old(self).events@.len() > 0 ==> ({
                let (objs2, emitted) = step(
                    old(self).objects@,
                    old(self).events@.last(),
                    elapsed as int,
                    old(self).world_size_x as int,
                    old(self).world_size_y as int,
                );
                final(self).objects@ == objs2 && final(self).events@ == enqueue_all(
                    old(self).events@.drop_last(),
                    emitted,
                )
            }),
    {
        let ev = match self.events.pop_back() {
            Option::Some(e) => e,
            Option::None => {
                return ;
            },
        };
        proof {
            assert(self.events@ =~= old(self).events@.drop_last());
        }
        self.process_event(ev, elapsed);
    }
}

/// What a radar scan disclosed of one entity: the tier of the scanning
/// radar decides which attributes are filled in.
pub struct RadarContact {
    pub x: i64,
    pub y: i64,
    pub name: Option<String>,
    pub otype: Option<ObjectType>,
    pub drive_speed: Option<i64>,
}

/// The disclosure policy of the radar tiers: `Simple` exposes only the
/// position, `Middle` adds name and kind, `Military` adds the drive speed.
pub open spec fn contact_of(o: SampleObject, tier: RadarType) -> RadarContact {
    RadarContact {
        x: o.x,
        y: o.y,
        name: match tier {
            RadarType::Middle | RadarType::Military => Option::Some(o.name),
            _ => Option::None,
        },
        otype: match tier {
            RadarType::Middle | RadarType::Military => Option::Some(o.otype),
            _ => Option::None,
        },
        drive_speed: match tier {
            RadarType::Military => Option::Some(o.drive_speed),
            _ => Option::None,
        },
    }
}

/// The contacts collected from the first `n` entities of the store, in
/// store order: every entity within the scanning entity's radar radius,
/// the scanner itself included.
pub open spec fn scan_upto(objs: Seq<SampleObject>, center: SampleObject, n: int) -> Seq<
    RadarContact,
>
    decreases n,
{
    if n <= 0 {
        Seq::empty()
    } else {
        scan_upto(objs, center, n - 1) + if dist_sq(
            center.x as int,
            center.y as int,
            objs[n - 1].x as int,
            objs[n - 1].y as int,
        ) <= center.radar_radius * center.radar_radius {
            seq![contact_of(objs[n - 1], center.radar_type)]
        } else {
            Seq::empty()
        }
    }
}

/// What the entity at index `i` sees: nothing without a radar, otherwise
/// every entity in radar range, filtered by the radar's tier.
pub open spec fn radar_view(objs: Seq<SampleObject>, i: int) -> Seq<RadarContact> {
    if objs[i].radar_type == RadarType::Absent {
        Seq::empty()
    } else {
        scan_upto(objs, objs[i], objs.len() as int)
    }
}

impl GameEngine {
    /// The radar-tier-filtered view for one named, owned entity. An
    /// unknown name and an ownership mismatch are both reported as
    /// `None`, so existence leaks to no unauthorized caller.
    pub fn radar_scan(&self, name: &String, owner: &String) -> (r: Option<Vec<RadarContact>>)
        requires
            self.wf(),
        ensures
            match r {
                Option::Some(v) => has_name(self.objects@, name@) && self.objects@[
                    idx_of(self.objects@, name@)
                ].owner@ == owner@ && v@ == radar_view(self.objects@, idx_of(self.objects@, name@)),
                Option::None => !(has_name(self.objects@, name@) && self.objects@[
                    idx_of(self.objects@, name@)
                ].owner@ == owner@),
            },
    {
        let i = match self.find_index(name) {
            Option::Some(i) => i,
            Option::None => {
                return Option::None;
            },
        };
        proof {
            lemma_idx_of(self.objects@, name@, i as int);
            assert(self.objects@[i as int].wf(self.world_size_x as int, self.world_size_y as int));
        }
        if !self.objects[i].owner.eq(owner) {
            return Option::None;
        }
        let center = self.objects[i].clone();
        let mut result: Vec<RadarContact> = Vec::new();
        if let RadarType::Absent = center.radar_type {
            return Option::Some(result);
        }
        let n = self.objects.len();
        let mut k: usize = 0;
        while k < n
            invariant
                n == self.objects@.len(),
                k <= n,
                self.wf(),
                center == self.objects@[i as int],
                i < n,
                result@ == scan_upto(self.objects@, center, k as int),
            decreases n - k,
        {
            proof {
                assert(self.objects@[k as int].wf(self.world_size_x as int,
                    self.world_size_y as int));
                assert(self.objects@[i as int].wf(self.world_size_x as int,
                    self.world_size_y as int));
            }
            let o = &self.objects[k];
            if within_range(center.x, center.y, o.x, o.y, center.radar_radius) {
                let contact = match center.radar_type {
                    RadarType::Absent | RadarType::Simple => RadarContact {
                        x: o.x,
                        y: o.y,
                        name: Option::None,
                        otype: Option::None,
                        drive_speed: Option::None,
                    },
                    RadarType::Middle => RadarContact {
                        x: o.x,
                        y: o.y,
                        name: Option::Some(o.name.clone()),
                        otype: Option::Some(o.otype),
                        drive_speed: Option::None,
                    },
                    RadarType::Military => RadarContact {
                        x: o.x,
                        y: o.y,
                        name: Option::Some(o.name.clone()),
                        otype: Option::Some(o.otype),
                        drive_speed: Option::Some(o.drive_speed),
                    },
                };
                result.push(contact);
            }
            k = k + 1;
        }
        Option::Some(result)
    }
}

} // verus!
