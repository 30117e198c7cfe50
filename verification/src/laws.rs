//! The global guarantees of the simulation, each proved once and for all
//! against the transition function `step` that `GameEngine::game_loop` is
//! verified to implement.

use vstd::prelude::*;

use crate::engine::GameEngine;
use crate::events::{BuildEvent, DamageEvent, DestroyEvent, Event, MoveEvent};
use crate::geom::{axis_step, clamped, dist_sq, step_len, WORLD_MAX};
use crate::object::{object_recipe, SampleObject};
use crate::step::{
    all_wf, destroys_upto, has_name, idx_of, killed, names_unique, step, step_build, step_damage,
    step_destroy, step_move,
};

verus! {

/// At most one entity exists with any given name: in a well-formed
/// engine, and so at every tick boundary, two distinct store entries
/// always carry distinct names.
pub proof fn lemma_unique_names(e: GameEngine)
    requires
        e.wf(),
    ensures
        forall|i: int, j: int|
            0 <= i < j < e.objects@.len() ==> e.objects@[i].name@ != e.objects@[j].name@,
{
}

/// Ownership enforcement: a movement, fire or build request whose owner
/// does not match the stored owner of the target entity (or that names no
/// entity at all) produces no state change and emits nothing, whatever
/// the rest of its payload.
pub proof fn lemma_ownership_enforced(
    objs: Seq<SampleObject>,
    ev: Event,
    elapsed: int,
    w: int,
    h: int,
)
    requires
        match ev {
            Event::MoveRequest(m) => !(has_name(objs, m.name@) && objs[idx_of(objs, m.name@)].owner@
                == m.owner@),
            Event::FireRequest(f) => !(has_name(objs, f.name@) && objs[idx_of(objs, f.name@)].owner@
                == f.owner@),
            Event::BuildRequest(b) => !(has_name(objs, b.name@) && objs[
                idx_of(objs, b.name@)
            ].owner@ == b.owner@),
            _ => false,
        },
    ensures
        step(objs, ev, elapsed, w, h).0 == objs,
        step(objs, ev, elapsed, w, h).1 == Seq::<Event>::empty(),
{
}

/// Build completion happens exactly on the tick that crosses the
/// progress threshold: before it the store is untouched and the
/// continuation is re-emitted with the advanced progress; on it exactly
/// one new entity appears, at the builder's position and with the
/// builder's owner, and the process ends.
pub proof fn lemma_build_completion(objs: Seq<SampleObject>, b: BuildEvent, elapsed: int)
    requires
        b.valid(),
        b.progress < b.max_progress,
        has_name(objs, b.name@),
        !has_name(objs, b.b_name@),
    ensures
        ({
            let p = b.progress + step_len(b.speed as int, elapsed);
            let builder = objs[idx_of(objs, b.name@)];
            let (objs2, emitted) = step_build(objs, b, elapsed);
            &&& p >= b.max_progress ==> objs2 == objs.push(
                object_recipe(builder.owner, b.b_name, b.b_type, builder.x, builder.y),
            ) && emitted == Seq::<Event>::empty()
            &&& p < b.max_progress ==> objs2 == objs && emitted == seq![
                Event::Build((BuildEvent { progress: p as i64, ..b })),
            ]
        }),
{
}

/// How many destruction events for `name` a sequence of events holds.
pub open spec fn count_destroys(es: Seq<Event>, name: Seq<char>) -> int
    decreases es.len(),
{
    if es.len() == 0 {
        0
    } else {
        count_destroys(es.drop_last(), name) + match es.last() {
            Event::Destroy(d) => if d.name@ == name {
                1int
            } else {
                0int
            },
            _ => 0int,
        }
    }
}

proof fn lemma_count_destroys_concat(a: Seq<Event>, b: Seq<Event>, name: Seq<char>)
    ensures
        count_destroys(a + b, name) == count_destroys(a, name) + count_destroys(b, name),
    decreases b.len(),
{
    if b.len() == 0 {
        assert(a + b =~= a);
    } else {
        assert((a + b).drop_last() =~= a + b.drop_last());
        lemma_count_destroys_concat(a, b.drop_last(), name);
    }
}

proof fn lemma_destroys_upto_count(
    objs: Seq<SampleObject>,
    d: DamageEvent,
    i: int,
    n: int,
)
    requires
        names_unique(objs),
        0 <= i < objs.len(),
        0 <= n <= objs.len(),
    ensures
        count_destroys(destroys_upto(objs, d, n), objs[i].name@) == if i < n && killed(
            objs[i],
            d,
        ) {
            1int
        } else {
            0int
        },
    decreases n,
{
    if n > 0 {
        lemma_destroys_upto_count(objs, d, i, n - 1);
        let tail = if killed(objs[n - 1], d) {
            seq![Event::Destroy((DestroyEvent { name: objs[n - 1].name }))]
        } else {
            Seq::<Event>::empty()
        };
        lemma_count_destroys_concat(destroys_upto(objs, d, n - 1), tail, objs[i].name@);
        assert(count_destroys(Seq::<Event>::empty(), objs[i].name@) == 0);
        if killed(objs[n - 1], d) {
            assert(tail.drop_last() =~= Seq::<Event>::empty());
            assert(count_destroys(tail, objs[i].name@) == if objs[n - 1].name@ == objs[i].name@ {
                1int
            } else {
                0int
            });
        } else {
            assert(count_destroys(tail, objs[i].name@) == 0);
        }
        if n - 1 != i {
            assert(objs[n - 1].name@ != objs[i].name@);
        }
    }
}

/// Destruction cascade, first half: one scan of a damage event emits
/// exactly one destruction event for an entity the hit drove to zero or
/// below, and none for any entity it did not.
pub proof fn lemma_destroy_emitted_once(
    objs: Seq<SampleObject>,
    d: DamageEvent,
    w: int,
    h: int,
    i: int,
)
    requires
        names_unique(objs),
        d.valid(w, h),
        0 <= i < objs.len(),
    ensures
        count_destroys(step_damage(objs, d, w, h).1, objs[i].name@) == if killed(
            objs[i],
            d,
        ) {
            1int
        } else {
            0int
        },
{
    lemma_destroys_upto_count(objs, d, i, objs.len() as int);
}

/// Destruction cascade, second half: processing a destruction event
/// removes the named entity for good — afterwards no entity of that name
/// is in the store — and emits nothing further.
pub proof fn lemma_destroy_removes(objs: Seq<SampleObject>, d: DestroyEvent)
    requires
        names_unique(objs),
        has_name(objs, d.name@),
    ensures
        !has_name(step_destroy(objs, d).0, d.name@),
        step_destroy(objs, d).1 == Seq::<Event>::empty(),
{
    let i = idx_of(objs, d.name@);
    let rest = objs.remove(i);
    assert forall|k: int| 0 <= k < rest.len() implies rest[k].name@ != d.name@ by {
        if k < i {
            assert(rest[k] == objs[k]);
        } else {
            assert(rest[k] == objs[k + 1]);
        }
    }
}

/// One greedy movement step taken outside snapping range strictly
/// decreases the squared distance to the destination: the axis-wise step
/// (with the world clamp) always makes progress as long as the entity is
/// more than one step away.
pub proof fn lemma_move_step_decreases(
    px: int,
    py: int,
    dx: int,
    dy: int,
    s: int,
    w: int,
    h: int,
)
    requires
        0 <= px <= w,
        0 <= py <= h,
        0 <= dx <= w,
        0 <= dy <= h,
        s >= 1,
        dist_sq(px, py, dx, dy) > s * s,
    ensures
        dist_sq(axis_step(px, dx, s, w), axis_step(py, dy, s, h), dx, dy) < dist_sq(
            px,
            py,
            dx,
            dy,
        ),
{
    let ax = if dx >= px {
        dx - px
    } else {
        px - dx
    };
    let ay = if dy >= py {
        dy - py
    } else {
        py - dy
    };
    let d2 = dist_sq(px, py, dx, dy);
    assert(d2 == ax * ax + ay * ay) by (nonlinear_arith)
        requires
            ax == dx - px || ax == px - dx,
            ay == dy - py || ay == py - dy,
            d2 == (px - dx) * (px - dx) + (py - dy) * (py - dy),
    ;
    let ux = if px < dx {
        px + s
    } else if px > dx {
        px - s
    } else {
        px
    };
    let uy = if py < dy {
        py + s
    } else if py > dy {
        py - s
    } else {
        py
    };
    let nx = axis_step(px, dx, s, w);
    let ny = axis_step(py, dy, s, h);
    assert(nx == clamped(ux, w));
    assert(ny == clamped(uy, h));
    let cx = if dx >= nx {
        dx - nx
    } else {
        nx - dx
    };
    let cy = if dy >= ny {
        dy - ny
    } else {
        ny - dy
    };
    let bx = if dx >= ux {
        dx - ux
    } else {
        ux - dx
    };
    let by = if dy >= uy {
        dy - uy
    } else {
        uy - dy
    };
    let d2n = dist_sq(nx, ny, dx, dy);
    assert(d2n == cx * cx + cy * cy) by (nonlinear_arith)
        requires
            cx == dx - nx || cx == nx - dx,
            cy == dy - ny || cy == ny - dy,
            d2n == (nx - dx) * (nx - dx) + (ny - dy) * (ny - dy),
    ;
    assert(0 <= cx <= bx);
    assert(0 <= cy <= by);
    assert(cx * cx <= bx * bx) by (nonlinear_arith)
        requires
            0 <= cx <= bx,
    ;
    assert(cy * cy <= by * by) by (nonlinear_arith)
        requires
            0 <= cy <= by,
    ;
    if ax == 0 && ay == 0 {
        assert(false) by (nonlinear_arith)
            requires
                d2 == ax * ax + ay * ay,
                ax == 0,
                ay == 0,
                d2 > s * s,
                s >= 1,
        ;
    } else if ay == 0 {
        assert(ax * ax > s * s) by (nonlinear_arith)
            requires
                d2 == ax * ax + ay * ay,
                ay == 0,
                d2 > s * s,
        ;
        assert(bx == ax - s || bx == s - ax);
        assert(bx * bx == ax * ax - 2 * s * ax + s * s) by (nonlinear_arith)
            requires
                bx == ax - s || bx == s - ax,
        ;
        assert(ax > s) by (nonlinear_arith)
            requires
                ax >= 0,
                s >= 0,
                ax * ax > s * s,
        ;
        assert(cy == 0);
        assert(d2n < d2) by (nonlinear_arith)
            requires
                d2n == cx * cx + cy * cy,
                cy == 0,
                cx * cx <= bx * bx,
                bx * bx == ax * ax - 2 * s * ax + s * s,
                d2 == ax * ax + ay * ay,
                ay == 0,
                ax > s,
                s >= 1,
        ;
    } else if ax == 0 {
        assert(ay * ay > s * s) by (nonlinear_arith)
            requires
                d2 == ax * ax + ay * ay,
                ax == 0,
                d2 > s * s,
        ;
        assert(by == ay - s || by == s - ay);
        assert(by * by == ay * ay - 2 * s * ay + s * s) by (nonlinear_arith)
            requires
                by == ay - s || by == s - ay,
        ;
        assert(ay > s) by (nonlinear_arith)
            requires
                ay >= 0,
                s >= 0,
                ay * ay > s * s,
        ;
        assert(cx == 0);
        assert(d2n < d2) by (nonlinear_arith)
            requires
                d2n == cx * cx + cy * cy,
                cx == 0,
                cy * cy <= by * by,
                by * by == ay * ay - 2 * s * ay + s * s,
                d2 == ax * ax + ay * ay,
                ax == 0,
                ay > s,
                s >= 1,
        ;
    } else {
        assert(bx == ax - s || bx == s - ax);
        assert(by == ay - s || by == s - ay);
        assert(bx * bx == ax * ax - 2 * s * ax + s * s) by (nonlinear_arith)
            requires
                bx == ax - s || bx == s - ax,
        ;
        assert(by * by == ay * ay - 2 * s * ay + s * s) by (nonlinear_arith)
            requires
                by == ay - s || by == s - ay,
        ;
        assert(ax + ay > s) by (nonlinear_arith)
            requires
                ax > 0,
                ay > 0,
                s >= 0,
                ax * ax + ay * ay > s * s,
        ;
        assert(d2n < d2) by (nonlinear_arith)
            requires
                d2n == cx * cx + cy * cy,
                cx * cx <= bx * bx,
                cy * cy <= by * by,
                bx * bx == ax * ax - 2 * s * ax + s * s,
                by * by == ay * ay - 2 * s * ay + s * s,
                d2 == ax * ax + ay * ay,
                ax + ay > s,
                s >= 1,
        ;
    }
}

/// Movement termination: while the entity is more than one step from a
/// stationary target, each processed `Move` strictly decreases the
/// squared distance to the target and re-emits exactly one continuation;
/// once the distance is within one step, the entity snaps exactly onto
/// the target and no further `Move` is emitted. Distance is a
/// non-negative integer, so the process reaches the target after
/// finitely many ticks.
pub proof fn lemma_move_termination(
    objs: Seq<SampleObject>,
    m: MoveEvent,
    elapsed: int,
    w: int,
    h: int,
)
    requires
        names_unique(objs),
        all_wf(objs, w, h),
        1 <= w <= WORLD_MAX,
        1 <= h <= WORLD_MAX,
        has_name(objs, m.name@),
        step_len(objs[idx_of(objs, m.name@)].drive_speed as int, elapsed) >= 1,
    ensures
        ({
            let i = idx_of(objs, m.name@);
            let o = objs[i];
            let s = step_len(o.drive_speed as int, elapsed);
            let d2 = dist_sq(
                o.x as int,
                o.y as int,
                o.drive_dest_x as int,
                o.drive_dest_y as int,
            );
            let (objs2, emitted) = step_move(objs, m, elapsed, w, h);
            let o2 = objs2[i];
            &&& o2.drive_dest_x == o.drive_dest_x && o2.drive_dest_y == o.drive_dest_y
            &&& d2 <= s * s ==> o2.x == o.drive_dest_x && o2.y == o.drive_dest_y && emitted
                == Seq::<Event>::empty()
            &&& d2 > s * s ==> dist_sq(
                o2.x as int,
                o2.y as int,
                o.drive_dest_x as int,
                o.drive_dest_y as int,
            ) < d2 && emitted == seq![Event::Move(m)]
        }),
{
    let i = idx_of(objs, m.name@);
    let o = objs[i];
    assert(o.wf(w, h));
    let s = step_len(o.drive_speed as int, elapsed);
    let d2 = dist_sq(o.x as int, o.y as int, o.drive_dest_x as int, o.drive_dest_y as int);
    if d2 > s * s {
        lemma_move_step_decreases(
            o.x as int,
            o.y as int,
            o.drive_dest_x as int,
            o.drive_dest_y as int,
            s,
            w,
            h,
        );
    }
}

} // verus!
