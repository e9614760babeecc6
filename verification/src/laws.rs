//! The library's cross-function guarantees, each proved from the systems'
//! own contracts: the population invariant over whole runs, the
//! edge-trigger bound on dynamite spawns, the controller's null-input and
//! cancellation behaviour, and frame-rate independence of motion.

use vstd::prelude::*;
use crate::entity::{count_kind, Entity, EntityKind};
use crate::input::KeyboardInput;
use crate::systems::{character_moved, moved_entity_at, moved_x, moved_y, spawn_granted};
use crate::world::World;

verus! {

// ----------------------------------------------------------------------
// Population invariant over a run
// ----------------------------------------------------------------------

/// What `step_frame` guarantees of every frame that starts well-formed:
/// the frame's end state is well-formed too.
pub open spec fn frame_keeps_wf(pre: World, post: World) -> bool {
    pre.wf() ==> post.wf()
}

/// Every frame of a run that starts from a well-formed world — one
/// character, three ground platforms — sees exactly one character and
/// exactly three ground platforms, since each frame keeps well-formedness.
pub proof fn lemma_population_holds_every_frame(worlds: Seq<World>)
    requires
        worlds.len() > 0,
        worlds[0].wf(),
        forall|t: int| 0 <= t < worlds.len() - 1 ==> #[trigger] frame_keeps_wf(worlds[t], worlds[t + 1]),
    ensures
        forall|t: int|
            0 <= t < worlds.len() ==> {
                &&& count_kind((#[trigger] worlds[t]).entities@, EntityKind::Character) == 1
                &&& count_kind(worlds[t].entities@, EntityKind::GroundPlatform) == 3
            },
    decreases worlds.len(),
{
    if worlds.len() > 1 {
        let rest = worlds.drop_first();
        assert(rest[0] == worlds[1]);
        assert(frame_keeps_wf(worlds[0], worlds[1]));
        assert forall|t: int|
            0 <= t < rest.len() - 1 implies #[trigger] frame_keeps_wf(rest[t], rest[t + 1]) by {
            assert(rest[t] == worlds[t + 1] && rest[t + 1] == worlds[t + 2]);
        }
        lemma_population_holds_every_frame(rest);
        assert forall|t: int|
            0 <= t < worlds.len() implies {
            &&& count_kind((#[trigger] worlds[t]).entities@, EntityKind::Character) == 1
            &&& count_kind(worlds[t].entities@, EntityKind::GroundPlatform) == 3
        } by {
            if t > 0 {
                assert(worlds[t] == rest[t - 1]);
            }
        }
    }
}

// ----------------------------------------------------------------------
// Edge trigger: holding the key spawns at most once
// ----------------------------------------------------------------------

/// The two per-frame facts the spawner's contract gives about a frame:
/// the key memory ends on this frame's key, and the dynamite count grows
/// exactly on a granted spawn.
pub open spec fn frame_observed(pre: World, post: World, keys: KeyboardInput) -> bool {
    &&& post.dynamite_key_was_held == keys.dynamite
    &&& count_kind(post.entities@, EntityKind::Dynamite) == count_kind(
        pre.entities@,
        EntityKind::Dynamite,
    ) + if spawn_granted(pre, keys) {
        1int
    } else {
        0int
    }
}

/// While the key stays held and the world remembers it, nothing spawns:
/// there is no rising edge.
proof fn lemma_no_spawn_while_key_remembered(worlds: Seq<World>, inputs: Seq<KeyboardInput>)
    requires
        worlds.len() == inputs.len() + 1,
        worlds[0].dynamite_key_was_held,
        forall|t: int| 0 <= t < inputs.len() ==> #[trigger] frame_observed(worlds[t], worlds[t + 1], inputs[t]),
        forall|t: int| 0 <= t < inputs.len() ==> (#[trigger] inputs[t]).dynamite,
    ensures
        count_kind(worlds.last().entities@, EntityKind::Dynamite) == count_kind(
            worlds[0].entities@,
            EntityKind::Dynamite,
        ),
    decreases inputs.len(),
{
    if inputs.len() > 0 {
        let t0: int = 0;
        assert(frame_observed(worlds[t0], worlds[t0 + 1], inputs[t0]));
        assert(!spawn_granted(worlds[0], inputs[0]));
        let rw = worlds.drop_first();
        let ri = inputs.drop_first();
        assert(rw[0] == worlds[1]);
        assert(worlds[1].dynamite_key_was_held);
        assert forall|t: int|
            0 <= t < ri.len() implies #[trigger] frame_observed(rw[t], rw[t + 1], ri[t]) by {
            assert(rw[t] == worlds[t + 1] && rw[t + 1] == worlds[t + 2] && ri[t] == inputs[t + 1]);
        }
        assert forall|t: int| 0 <= t < ri.len() implies (#[trigger] ri[t]).dynamite by {
            assert(ri[t] == inputs[t + 1]);
        }
        lemma_no_spawn_while_key_remembered(rw, ri);
        assert(rw.last() == worlds.last());
    }
}

/// Holding the dynamite key across any number of consecutive frames
/// spawns at most one dynamite: only the rising edge can spawn, and after
/// the first held frame the world remembers the key.
pub proof fn lemma_holding_key_spawns_at_most_once(worlds: Seq<World>, inputs: Seq<KeyboardInput>)
    requires
        worlds.len() == inputs.len() + 1,
        forall|t: int| 0 <= t < inputs.len() ==> #[trigger] frame_observed(worlds[t], worlds[t + 1], inputs[t]),
        forall|t: int| 0 <= t < inputs.len() ==> (#[trigger] inputs[t]).dynamite,
    ensures
        count_kind(worlds.last().entities@, EntityKind::Dynamite) <= count_kind(
            worlds[0].entities@,
            EntityKind::Dynamite,
        ) + 1,
{
    if inputs.len() > 0 {
        let t0: int = 0;
        assert(frame_observed(worlds[t0], worlds[t0 + 1], inputs[t0]));
        let rw = worlds.drop_first();
        let ri = inputs.drop_first();
        assert(rw[0] == worlds[1]);
        assert(worlds[1].dynamite_key_was_held == inputs[0].dynamite);
        assert forall|t: int|
            0 <= t < ri.len() implies #[trigger] frame_observed(rw[t], rw[t + 1], ri[t]) by {
            assert(rw[t] == worlds[t + 1] && rw[t + 1] == worlds[t + 2] && ri[t] == inputs[t + 1]);
        }
        assert forall|t: int| 0 <= t < ri.len() implies (#[trigger] ri[t]).dynamite by {
            assert(ri[t] == inputs[t + 1]);
        }
        lemma_no_spawn_while_key_remembered(rw, ri);
        assert(rw.last() == worlds.last());
    }
}

// ----------------------------------------------------------------------
// Null input and left-right cancellation
// ----------------------------------------------------------------------

/// With no movement key held, a frame of the controller moves nothing: the
/// scene after the controller is the scene before it.
pub proof fn lemma_null_input_moves_nothing(
    pre: Seq<Entity>,
    post: Seq<Entity>,
    keys: KeyboardInput,
    dt_ms: u32,
)
    requires
        character_moved(pre, post, keys, dt_ms),
        !keys.any_movement(),
    ensures
        post == pre,
{
    assert forall|i: int| 0 <= i < pre.len() implies post[i] == pre[i] by {
        if pre[i].kind == EntityKind::Character {
            assert(moved_entity_at(pre, post, i, keys, dt_ms));
            assert(post[i].translation.x == pre[i].translation.x);
            assert(post[i].translation.y == pre[i].translation.y);
        }
    }
    assert(post =~= pre);
}

/// Holding left and right together cancels to zero horizontal
/// displacement, whatever the frame length and speed.
pub proof fn lemma_left_and_right_cancel(x: int, keys: KeyboardInput, step: int)
    requires
        keys.left,
        keys.right,
    ensures
        moved_x(x, keys, step) == x,
{
}

// ----------------------------------------------------------------------
// Frame-rate independence
// ----------------------------------------------------------------------

/// Total milliseconds of a run of frames.
pub open spec fn sum_dts(dts: Seq<int>) -> int
    decreases dts.len(),
{
    if dts.len() == 0 {
        0
    } else {
        sum_dts(dts.drop_last()) + dts.last()
    }
}

/// The x coordinate after running the controller once per frame, with the
/// same keys held throughout and frame lengths `dts` (milliseconds).
pub open spec fn x_after_frames(x: int, speed: int, keys: KeyboardInput, dts: Seq<int>) -> int
    decreases dts.len(),
{
    if dts.len() == 0 {
        x
    } else {
        moved_x(x_after_frames(x, speed, keys, dts.drop_last()), keys, speed * dts.last())
    }
}

/// The y coordinate after the same run.
pub open spec fn y_after_frames(y: int, speed: int, keys: KeyboardInput, dts: Seq<int>) -> int
    decreases dts.len(),
{
    if dts.len() == 0 {
        y
    } else {
        moved_y(y_after_frames(y, speed, keys, dts.drop_last()), keys, speed * dts.last())
    }
}

/// Motion integrates frame-rate-independently: however wall time is cut
/// into frames, the position after the run depends only on the total time.
/// Holding right for one second of frames always moves `speed` units.
pub proof fn lemma_motion_is_frame_rate_independent(
    x: int,
    y: int,
    speed: int,
    keys: KeyboardInput,
    dts: Seq<int>,
)
    ensures
        x_after_frames(x, speed, keys, dts) == moved_x(x, keys, speed * sum_dts(dts)),
        y_after_frames(y, speed, keys, dts) == moved_y(y, keys, speed * sum_dts(dts)),
    decreases dts.len(),
{
    if dts.len() == 0 {
        assert(speed * 0 == 0) by (nonlinear_arith);
    } else {
        lemma_motion_is_frame_rate_independent(x, y, speed, keys, dts.drop_last());
        assert(speed * (sum_dts(dts.drop_last()) + dts.last()) == speed * sum_dts(dts.drop_last())
            + speed * dts.last()) by (nonlinear_arith);
    }
}

} // verus!

