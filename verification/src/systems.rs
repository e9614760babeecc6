//! The per-frame systems: keyboard-driven character motion, the
//! edge-triggered, currency-gated dynamite spawner, coin placement, and
//! proximity-based coin collection — plus `step_frame`, which runs them in
//! the frame pipeline's order.

use vstd::prelude::*;
use crate::entity::{
    bronze_coin_entity, character_index, count_kind, dynamite_entity, lemma_character_index,
    lemma_count_kind_pos, lemma_count_kind_push, lemma_count_kind_same_kinds, the_character,
    Entity, EntityKind,
};
use crate::geometry::{within_collection_radius, within_radius, Translation, COLLECTION_RADIUS_MILLI};
use crate::input::KeyboardInput;
use crate::money::{saturated, COIN_VALUE, DYNAMITE_PRICE};
use crate::world::World;

verus! {

// ----------------------------------------------------------------------
// Character motion
// ----------------------------------------------------------------------

/// One frame's displacement in milliunits: `speed` world units per second
/// over `dt_ms` milliseconds.
pub open spec fn step_milli(speed: u32, dt_ms: u32) -> int {
    speed * dt_ms
}

/// The x coordinate after one frame: held left and right keys each
/// contribute one step, so holding both cancels exactly.
pub open spec fn moved_x(x: int, keys: KeyboardInput, step: int) -> int {
    x - (if keys.left {
        step
    } else {
        0
    }) + (if keys.right {
        step
    } else {
        0
    })
}

/// The y coordinate after one frame: the down key and the jump key each
/// contribute one step.
pub open spec fn moved_y(y: int, keys: KeyboardInput, step: int) -> int {
    y - (if keys.down {
        step
    } else {
        0
    }) + (if keys.jump {
        step
    } else {
        0
    })
}

/// Entity `i` of `post` is entity `i` of `pre` carried one frame of motion:
/// x and y move by its own speed and the held keys, and every other
/// attribute is kept.
pub open spec fn moved_entity_at(
    pre: Seq<Entity>,
    post: Seq<Entity>,
    i: int,
    keys: KeyboardInput,
    dt_ms: u32,
) -> bool {
    let e0 = pre[i];
    let e1 = post[i];
    let step = step_milli(e0.character.unwrap().speed, dt_ms);
    &&& e1.translation.x == moved_x(e0.translation.x as int, keys, step)
    &&& e1.translation.y == moved_y(e0.translation.y as int, keys, step)
    &&& e1.translation.z == e0.translation.z
    &&& e1.kind == e0.kind
    &&& e1.sprite == e0.sprite
    &&& e1.body == e0.body
    &&& e1.collider == e0.collider
    &&& e1.gravity_scale_milli == e0.gravity_scale_milli
    &&& e1.character == e0.character
}

/// What one frame of the character controller does to the scene: every
/// character entity moves by its speed and the held keys, and everything
/// else is untouched.
pub open spec fn character_moved(
    pre: Seq<Entity>,
    post: Seq<Entity>,
    keys: KeyboardInput,
    dt_ms: u32,
) -> bool {
    &&& post.len() == pre.len()
    &&& forall|i: int|
        0 <= i < pre.len() && (#[trigger] pre[i]).kind != EntityKind::Character ==> post[i] == pre[i]
    &&& forall|i: int|
        0 <= i < pre.len() && (#[trigger] pre[i]).kind == EntityKind::Character ==> moved_entity_at(
            pre,
            post,
            i,
            keys,
            dt_ms,
        )
}

/// The machine-limit bound the controller needs: each character entity
/// carries its speed, and moving it one step in any direction stays inside
/// the 64-bit coordinate range.
pub open spec fn move_fits(pre: Seq<Entity>, dt_ms: u32) -> bool {
    forall|i: int|
        0 <= i < pre.len() && (#[trigger] pre[i]).kind == EntityKind::Character ==> {
            let step = step_milli(pre[i].character.unwrap().speed, dt_ms);
            &&& pre[i].character.is_some()
            &&& step <= i64::MAX
            &&& i64::MIN <= pre[i].translation.x - step
            &&& pre[i].translation.x + step <= i64::MAX
            &&& i64::MIN <= pre[i].translation.y - step
            &&& pre[i].translation.y + step <= i64::MAX
        }
}

/// Move every character entity by its speed and the held keys over a frame
/// of `dt_ms` milliseconds, writing the translation directly (no physics
/// impulse). Money and the spawner's key memory are untouched.
pub fn move_character(w: &mut World, keys: &KeyboardInput, dt_ms: u32)
    requires
        move_fits(old(w).entities@, dt_ms),
    ensures
        character_moved(old(w).entities@, final(w).entities@, *keys, dt_ms),
        final(w).money == old(w).money,
        final(w).dynamite_key_was_held == old(w).dynamite_key_was_held,
{
    let n = w.entities.len();
    let mut i: usize = 0;
    while i < n
        invariant
            i <= n,
            n == w.entities@.len(),
            w.entities@.len() == old(w).entities@.len(),
            move_fits(old(w).entities@, dt_ms),
            forall|j: int| i <= j < n ==> w.entities@[j] == old(w).entities@[j],
            forall|j: int|
                0 <= j < i && (#[trigger] old(w).entities@[j]).kind != EntityKind::Character
                    ==> w.entities@[j] == old(w).entities@[j],
            forall|j: int|
                0 <= j < i && (#[trigger] old(w).entities@[j]).kind == EntityKind::Character
                    ==> moved_entity_at(old(w).entities@, w.entities@, j, *keys, dt_ms),
            w.money == old(w).money,
            w.dynamite_key_was_held == old(w).dynamite_key_was_held,
        decreases n - i,
    {
        let e = w.entities[i];
        if e.kind == EntityKind::Character {
            let step: i64 = (e.character.unwrap().speed as i64) * (dt_ms as i64);
            let mut x = e.translation.x;
            let mut y = e.translation.y;
            if keys.left {
                x = x - step;
            }
            if keys.right {
                x = x + step;
            }
            if keys.down {
                y = y - step;
            }
            if keys.jump {
                y = y + step;
            }
            w.entities[i] = Entity {
                translation: Translation { x, y, z: e.translation.z },
                ..e
            };
        }
        i = i + 1;
    }
}

// ----------------------------------------------------------------------
// Dynamite spawner
// ----------------------------------------------------------------------

/// The spawner acts only on the rising edge of the dynamite key: held now,
/// not held during the previous frame.
pub open spec fn spawn_attempted(pre: World, keys: KeyboardInput) -> bool {
    keys.dynamite && !pre.dynamite_key_was_held
}

/// A spawn goes through when it is attempted and the balance covers the
/// price.
pub open spec fn spawn_granted(pre: World, keys: KeyboardInput) -> bool {
    spawn_attempted(pre, keys) && pre.money.0 >= DYNAMITE_PRICE
}

/// On the rising edge of the dynamite key, try to spend the price; on
/// success append one dynamite at the character's current transform and
/// return the remaining balance (the purchase log line carries it). An
/// attempt without funds, or no rising edge, changes nothing but the key
/// memory. The scene must hold exactly one character.
pub fn spawn_dynamite(w: &mut World, keys: &KeyboardInput) -> (spent: Option<u8>)
    requires
        count_kind(old(w).entities@, EntityKind::Character) == 1,
    ensures
        final(w).dynamite_key_was_held == keys.dynamite,
        spawn_granted(*old(w), *keys) ==> {
            &&& final(w).money.0 == old(w).money.0 - DYNAMITE_PRICE
            &&& final(w).entities@ == old(w).entities@.push(
                dynamite_entity(the_character(old(w).entities@).translation),
            )
            &&& spent == Some((old(w).money.0 - DYNAMITE_PRICE) as u8)
        },
        !spawn_granted(*old(w), *keys) ==> {
            &&& final(w).money == old(w).money
            &&& final(w).entities@ == old(w).entities@
            &&& spent is None
        },
        count_kind(final(w).entities@, EntityKind::Dynamite) == count_kind(
            old(w).entities@,
            EntityKind::Dynamite,
        ) + if spawn_granted(*old(w), *keys) {
            1int
        } else {
            0int
        },
        forall|k: EntityKind|
            k != EntityKind::Dynamite ==> #[trigger] count_kind(final(w).entities@, k)
                == count_kind(old(w).entities@, k),
{
    let attempted = keys.dynamite && !w.dynamite_key_was_held;
    w.dynamite_key_was_held = keys.dynamite;
    if !attempted {
        return None;
    }
    let idx = find_character(&w.entities);
    let at = w.entities[idx].translation;
    if !w.money.try_spend(DYNAMITE_PRICE) {
        return None;
    }
    let stick = Entity {
        kind: EntityKind::Dynamite,
        translation: at,
        sprite: Some(
            crate::entity::Sprite {
                width_milli: 60_000,
                height_milli: 60_000,
                texture: crate::entity::TextureId::Dynamite,
            },
        ),
        body: Some(crate::entity::RigidBodyKind::Dynamic),
        collider: None,
        gravity_scale_milli: Some(900),
        character: None,
    };
    w.entities.push(stick);
    proof {
        assert(stick == dynamite_entity(the_character(old(w).entities@).translation));
        assert forall|k: EntityKind|
            k != EntityKind::Dynamite implies #[trigger] count_kind(w.entities@, k) == count_kind(
            old(w).entities@,
            k,
        ) by {
            lemma_count_kind_push(old(w).entities@, k, stick);
        }
        lemma_count_kind_push(old(w).entities@, EntityKind::Dynamite, stick);
    }
    Some(w.money.read())
}

/// Find the index of the scene's one character.
fn find_character(entities: &Vec<Entity>) -> (idx: usize)
    requires
        count_kind(entities@, EntityKind::Character) == 1,
    ensures
        idx < entities@.len(),
        idx == character_index(entities@),
        entities@[idx as int] == the_character(entities@),
        entities@[idx as int].kind == EntityKind::Character,
{
    let n = entities.len();
    let mut i: usize = 0;
    while i < n
        invariant
            i <= n,
            n == entities@.len(),
            count_kind(entities@, EntityKind::Character) == 1,
            forall|j: int| 0 <= j < i ==> (#[trigger] entities@[j]).kind != EntityKind::Character,
        decreases n - i,
    {
        if entities[i].kind == EntityKind::Character {
            proof {
                lemma_character_index(entities@);
            }
            return i;
        }
        i = i + 1;
    }
    proof {
        lemma_count_kind_pos(entities@, EntityKind::Character);
        assert(false);
    }
    unreached()
}

// ----------------------------------------------------------------------
// Coin subsystem
// ----------------------------------------------------------------------

/// Place one bronze coin at (10, 0), as the level author's operation.
pub fn spawn_bronze_coin(w: &mut World)
    ensures
        final(w).entities@ == old(w).entities@.push(bronze_coin_entity()),
        final(w).money == old(w).money,
        final(w).dynamite_key_was_held == old(w).dynamite_key_was_held,
{
    w.entities.push(
        Entity {
            kind: EntityKind::BronzeCoin,
            translation: Translation { x: 10_000, y: 0, z: 0 },
            sprite: Some(
                crate::entity::Sprite {
                    width_milli: 60_000,
                    height_milli: 60_000,
                    texture: crate::entity::TextureId::BronzeCoin,
                },
            ),
            body: None,
            collider: None,
            gravity_scale_milli: None,
            character: None,
        },
    );
}

/// Whether collection takes this entity: it is a bronze coin within the
/// collection radius of the character's position `at`.
pub open spec fn coin_collected(e: Entity, at: Translation) -> bool {
    e.kind == EntityKind::BronzeCoin && within_radius(
        e.translation,
        at,
        COLLECTION_RADIUS_MILLI as int,
    )
}

/// The scene after collection: the same entities in the same order, minus
/// every coin within reach of the character at `at`.
pub open spec fn surviving_entities(s: Seq<Entity>, at: Translation) -> Seq<Entity>
    decreases s.len(),
{
    if s.len() == 0 {
        Seq::empty()
    } else if coin_collected(s.last(), at) {
        surviving_entities(s.drop_last(), at)
    } else {
        surviving_entities(s.drop_last(), at).push(s.last())
    }
}

/// How many coins collection takes from the scene.
pub open spec fn collected_count(s: Seq<Entity>, at: Translation) -> int
    decreases s.len(),
{
    if s.len() == 0 {
        0
    } else {
        collected_count(s.drop_last(), at) + if coin_collected(s.last(), at) {
            1int
        } else {
            0int
        }
    }
}

/// Collection removes exactly the collected coins: counts of other kinds
/// are kept, and the coin count drops by the collected count.
pub proof fn lemma_surviving_counts(s: Seq<Entity>, at: Translation, k: EntityKind)
    ensures
        count_kind(surviving_entities(s, at), k) == count_kind(s, k) - if k
            == EntityKind::BronzeCoin {
            collected_count(s, at)
        } else {
            0int
        },
    decreases s.len(),
{
    if s.len() > 0 {
        lemma_surviving_counts(s.drop_last(), at, k);
        if !coin_collected(s.last(), at) {
            lemma_count_kind_push(surviving_entities(s.drop_last(), at), k, s.last());
        }
    }
}

/// Collection keeps every entity well-formed: the survivors all come from
/// the original scene.
pub proof fn lemma_surviving_wf(s: Seq<Entity>, at: Translation)
    requires
        forall|i: int| 0 <= i < s.len() ==> (#[trigger] s[i]).wf(),
    ensures
        forall|i: int|
            0 <= i < surviving_entities(s, at).len() ==> (#[trigger] surviving_entities(s, at)[i]).wf(),
    decreases s.len(),
{
    if s.len() > 0 {
        assert(forall|i: int| 0 <= i < s.drop_last().len() ==> (#[trigger] s.drop_last()[i]).wf());
        lemma_surviving_wf(s.drop_last(), at);
        let sur = surviving_entities(s, at);
        let sur0 = surviving_entities(s.drop_last(), at);
        if !coin_collected(s.last(), at) {
            assert(s[s.len() - 1].wf());
            assert forall|i: int| 0 <= i < sur.len() implies (#[trigger] sur[i]).wf() by {
                if i < sur0.len() {
                    assert(sur[i] == sur0[i]);
                } else {
                    assert(sur[i] == s.last());
                }
            }
        }
    }
}

/// One more saturating credit of `v` on top of `k` earlier ones lands on
/// the saturated total of `k + 1` credits.
proof fn lemma_saturated_step(m0: int, k: int, v: int)
    requires
        0 <= m0 <= 255,
        k >= 0,
        v >= 0,
    ensures
        saturated(saturated(m0, v * k), v) == saturated(m0, v * (k + 1)),
{
    assert(v * (k + 1) == v * k + v) by (nonlinear_arith);
    assert(v * k >= 0) by (nonlinear_arith)
        requires
            k >= 0,
            v >= 0,
    ;
}

/// Destroy every bronze coin within the collection radius of the
/// character's position and credit the coin value for each, saturating at
/// the top of the eight-bit range. The scene must hold exactly one
/// character.
pub fn collect_bronze_coin(w: &mut World)
    requires
        count_kind(old(w).entities@, EntityKind::Character) == 1,
    ensures
        final(w).entities@ == surviving_entities(
            old(w).entities@,
            the_character(old(w).entities@).translation,
        ),
        final(w).money.0 == saturated(
            old(w).money.0 as int,
            COIN_VALUE * collected_count(
                old(w).entities@,
                the_character(old(w).entities@).translation,
            ),
        ),
        final(w).dynamite_key_was_held == old(w).dynamite_key_was_held,
{
    let cidx = find_character(&w.entities);
    let at = w.entities[cidx].translation;
    let ghost s = old(w).entities@;
    let n = w.entities.len();
    let mut kept: Vec<Entity> = Vec::new();
    let mut i: usize = 0;
    while i < n
        invariant
            i <= n,
            n == w.entities@.len(),
            w.entities@ == old(w).entities@,
            s == old(w).entities@,
            at == the_character(old(w).entities@).translation,
            kept@ =~= surviving_entities(s.take(i as int), at),
            w.money.0 == saturated(
                old(w).money.0 as int,
                COIN_VALUE * collected_count(s.take(i as int), at),
            ),
            w.dynamite_key_was_held == old(w).dynamite_key_was_held,
        decreases n - i,
    {
        let e = w.entities[i];
        let near = within_collection_radius(&e.translation, &at);
        proof {
            assert(s.take(i + 1).drop_last() =~= s.take(i as int));
            assert(s.take(i + 1).last() == s[i as int]);
            lemma_collected_count_nonneg(s.take(i as int), at);
        }
        if e.kind == EntityKind::BronzeCoin && near {
            proof {
                lemma_saturated_step(
                    old(w).money.0 as int,
                    collected_count(s.take(i as int), at),
                    COIN_VALUE as int,
                );
            }
            w.money.credit(COIN_VALUE);
        } else {
            kept.push(e);
        }
        i = i + 1;
    }
    proof {
        assert(s.take(n as int) =~= s);
    }
    w.entities = kept;
}

/// Collected-coin counts never go negative.
proof fn lemma_collected_count_nonneg(s: Seq<Entity>, at: Translation)
    ensures
        collected_count(s, at) >= 0,
    decreases s.len(),
{
    if s.len() > 0 {
        lemma_collected_count_nonneg(s.drop_last(), at);
    }
}

// ----------------------------------------------------------------------
// The frame pipeline
// ----------------------------------------------------------------------

/// One frame of the pipeline, split at its two seams: `mid1` is the world
/// after the character controller, `mid2` after the dynamite spawner, and
/// `post` after coin collection.
pub open spec fn frame_rel(
    pre: World,
    mid1: World,
    mid2: World,
    post: World,
    keys: KeyboardInput,
    dt_ms: u32,
    spent: Option<u8>,
) -> bool {
    &&& character_moved(pre.entities@, mid1.entities@, keys, dt_ms)
    &&& mid1.money == pre.money
    &&& mid1.dynamite_key_was_held == pre.dynamite_key_was_held
    &&& mid2.dynamite_key_was_held == keys.dynamite
    &&& spawn_granted(mid1, keys) ==> {
        &&& mid2.money.0 == mid1.money.0 - DYNAMITE_PRICE
        &&& mid2.entities@ == mid1.entities@.push(
            dynamite_entity(the_character(mid1.entities@).translation),
        )
        &&& spent == Some((mid1.money.0 - DYNAMITE_PRICE) as u8)
    }
    &&& !spawn_granted(mid1, keys) ==> {
        &&& mid2.money == mid1.money
        &&& mid2.entities@ == mid1.entities@
        &&& spent is None
    }
    &&& post.entities@ == surviving_entities(
        mid2.entities@,
        the_character(mid2.entities@).translation,
    )
    &&& post.money.0 == saturated(
        mid2.money.0 as int,
        COIN_VALUE * collected_count(mid2.entities@, the_character(mid2.entities@).translation),
    )
    &&& post.dynamite_key_was_held == mid2.dynamite_key_was_held
}

/// Run one frame in the pipeline's order — character controller, dynamite
/// spawner, coin collection — and return the balance left by a successful
/// purchase, for the log. The key memory ends on this frame's key, the
/// startup population is preserved, and the dynamite count grows exactly
/// when a spawn is granted.
pub fn step_frame(w: &mut World, keys: &KeyboardInput, dt_ms: u32) -> (spent: Option<u8>)
    requires
        old(w).wf(),
        move_fits(old(w).entities@, dt_ms),
    ensures
        exists|mid1: World, mid2: World|
            #[trigger] frame_rel(*old(w), mid1, mid2, *final(w), *keys, dt_ms, spent),
        final(w).dynamite_key_was_held == keys.dynamite,
        final(w).wf(),
        count_kind(final(w).entities@, EntityKind::Dynamite) == count_kind(
            old(w).entities@,
            EntityKind::Dynamite,
        ) + if spawn_granted(*old(w), *keys) {
            1int
        } else {
            0int
        },
        spent == if spawn_granted(*old(w), *keys) {
            Some((old(w).money.0 - DYNAMITE_PRICE) as u8)
        } else {
            None::<u8>
        },
{
    move_character(w, keys, dt_ms);
    let ghost mid1 = *w;
    proof {
        lemma_moved_population(old(w).entities@, mid1.entities@, *keys, dt_ms);
        assert(mid1.wf());
    }
    let spent = spawn_dynamite(w, keys);
    let ghost mid2 = *w;
    proof {
        assert(mid2.wf()) by {
            if spawn_granted(mid1, *keys) {
                let stick = dynamite_entity(the_character(mid1.entities@).translation);
                lemma_count_kind_push(mid1.entities@, EntityKind::Character, stick);
                lemma_count_kind_push(mid1.entities@, EntityKind::GroundPlatform, stick);
                assert(forall|i: int|
                    0 <= i < mid1.entities@.len() ==> mid2.entities@[i] == mid1.entities@[i]);
            }
        }
    }
    collect_bronze_coin(w);
    proof {
        let at = the_character(mid2.entities@).translation;
        lemma_surviving_counts(mid2.entities@, at, EntityKind::Character);
        lemma_surviving_counts(mid2.entities@, at, EntityKind::GroundPlatform);
        lemma_surviving_counts(mid2.entities@, at, EntityKind::Dynamite);
        lemma_surviving_wf(mid2.entities@, at);
        assert(frame_rel(*old(w), mid1, mid2, *w, *keys, dt_ms, spent));
        assert(spawn_granted(mid1, *keys) == spawn_granted(*old(w), *keys));
    }
    spent
}

/// The character controller touches no entity's kind, capability or count:
/// a moved scene has the same population and stays well-formed.
proof fn lemma_moved_population(
    pre: Seq<Entity>,
    post: Seq<Entity>,
    keys: KeyboardInput,
    dt_ms: u32,
)
    requires
        character_moved(pre, post, keys, dt_ms),
        forall|i: int| 0 <= i < pre.len() ==> (#[trigger] pre[i]).wf(),
    ensures
        forall|k: EntityKind| #[trigger] count_kind(post, k) == count_kind(pre, k),
        forall|i: int| 0 <= i < post.len() ==> (#[trigger] post[i]).wf(),
{
    assert(forall|i: int| 0 <= i < pre.len() ==> (#[trigger] pre[i]).kind == post[i].kind);
    assert forall|k: EntityKind| #[trigger] count_kind(post, k) == count_kind(pre, k) by {
        lemma_count_kind_same_kinds(pre, post, k);
    }
    assert forall|i: int| 0 <= i < post.len() implies (#[trigger] post[i]).wf() by {
        assert(pre[i].wf());
        if pre[i].kind == EntityKind::Character {
            assert(moved_entity_at(pre, post, i, keys, dt_ms));
        }
    }
}

} // verus!
