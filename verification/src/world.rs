//! The scene as the game logic sees it, and the one-shot world builder
//! that populates it at startup.

use vstd::prelude::*;
use crate::entity::{
    camera_entity, character_start_entity, count_kind, ground_platform_entity, Entity, EntityKind,
};
use crate::money::{Money, INITIAL_MONEY};

verus! {

/// How the game asks its engine to open the window: a fixed title, an
/// initial size in pixels, and whether the user may resize it.
pub struct WindowConfig {
    pub title: &'static str,
    pub width: u32,
    pub height: u32,
    pub resizable: bool,
}

/// The window the game opens: "Platform Game", 960x720, resizable.
pub fn window_config() -> (config: WindowConfig)
    ensures
        config.title@ == "Platform Game"@,
        config.width == 960,
        config.height == 720,
        config.resizable,
{
    WindowConfig { title: "Platform Game", width: 960, height: 720, resizable: true }
}

/// The whole game state the logic reads and writes each frame: the scene's
/// entities, the currency counter, and whether the dynamite key was held
/// during the previous frame (the spawner is edge-triggered).
pub struct World {
    pub entities: Vec<Entity>,
    pub money: Money,
    pub dynamite_key_was_held: bool,
}

impl World {
    /// The startup invariant on the scene's population: exactly one
    /// character and exactly three ground platforms.
    pub open spec fn population_ok(self) -> bool {
        &&& count_kind(self.entities@, EntityKind::Character) == 1
        &&& count_kind(self.entities@, EntityKind::GroundPlatform) == 3
    }

    /// A well-formed world: the population invariant holds and every
    /// entity is well-formed.
    pub open spec fn wf(self) -> bool {
        &&& self.population_ok()
        &&& forall|i: int| 0 <= i < self.entities@.len() ==> #[trigger] self.entities@[i].wf()
    }
}

/// Spawn the camera and the character.
pub fn setup(w: &mut World)
    ensures
        final(w).entities@ == old(w).entities@.push(camera_entity()).push(
            character_start_entity(),
        ),
        final(w).money == old(w).money,
        final(w).dynamite_key_was_held == old(w).dynamite_key_was_held,
{
    w.entities.push(
        Entity {
            kind: EntityKind::Camera,
            translation: crate::geometry::Translation { x: 0, y: 0, z: 0 },
            sprite: None,
            body: None,
            collider: None,
            gravity_scale_milli: None,
            character: None,
        },
    );
    w.entities.push(
        Entity {
            kind: EntityKind::Character,
            translation: crate::geometry::Translation { x: -210_000, y: 40_000, z: 0 },
            sprite: Some(
                crate::entity::Sprite {
                    width_milli: 100_000,
                    height_milli: 100_000,
                    texture: crate::entity::TextureId::Character,
                },
            ),
            body: Some(crate::entity::RigidBodyKind::Dynamic),
            collider: Some(
                crate::entity::ColliderBox { half_width_milli: 50_000, half_height_milli: 50_000 },
            ),
            gravity_scale_milli: None,
            character: Some(crate::entity::MainCharacter { speed: crate::entity::CHARACTER_SPEED }),
        },
    );
}

/// Spawn the main ground: an 800x200-unit platform at (0, -300).
pub fn setup_ground(w: &mut World)
    ensures
        final(w).entities@ == old(w).entities@.push(
            ground_platform_entity(800_000, 200_000, 0, -300_000i64),
        ),
        final(w).money == old(w).money,
        final(w).dynamite_key_was_held == old(w).dynamite_key_was_held,
{
    w.entities.push(platform(800_000, 200_000, 400_000, 90_000, 0, -300_000i64));
}

/// Spawn the left platform: 500x200 units at (-300, 0).
pub fn setup_level_1_a(w: &mut World)
    ensures
        final(w).entities@ == old(w).entities@.push(
            ground_platform_entity(500_000, 200_000, -300_000i64, 0),
        ),
        final(w).money == old(w).money,
        final(w).dynamite_key_was_held == old(w).dynamite_key_was_held,
{
    w.entities.push(platform(500_000, 200_000, 250_000, 90_000, -300_000i64, 0));
}

/// Spawn the right platform: 500x200 units at (300, 0).
pub fn setup_level_1_b(w: &mut World)
    ensures
        final(w).entities@ == old(w).entities@.push(
            ground_platform_entity(500_000, 200_000, 300_000, 0),
        ),
        final(w).money == old(w).money,
        final(w).dynamite_key_was_held == old(w).dynamite_key_was_held,
{
    w.entities.push(platform(500_000, 200_000, 250_000, 90_000, 300_000, 0));
}

/// Build one ground platform record from its sprite size, collider
/// half-extents and position, all in milliunits.
fn platform(width_milli: i64, height_milli: i64, half_w: i64, half_h: i64, x: i64, y: i64) -> (e:
    Entity)
    requires
        half_w == width_milli / 2,
        half_h == height_milli / 2 - 10_000,
    ensures
        e == ground_platform_entity(width_milli, height_milli, x, y),
{
    Entity {
        kind: EntityKind::GroundPlatform,
        translation: crate::geometry::Translation { x: x, y: y, z: 0 },
        sprite: Some(
            crate::entity::Sprite {
                width_milli: width_milli,
                height_milli: height_milli,
                texture: crate::entity::TextureId::Ground,
            },
        ),
        body: Some(crate::entity::RigidBodyKind::Fixed),
        collider: Some(
            crate::entity::ColliderBox { half_width_milli: half_w, half_height_milli: half_h },
        ),
        gravity_scale_milli: None,
        character: None,
    }
}

/// Build the world exactly as the game starts: 100 currency units, the
/// dynamite key unheld, and the scene holding the camera, the character,
/// the main ground and the two raised platforms, in that order.
pub fn initialize() -> (w: World)
    ensures
        w.money.0 == INITIAL_MONEY,
        !w.dynamite_key_was_held,
        w.entities@ == seq![
            camera_entity(),
            character_start_entity(),
            ground_platform_entity(800_000, 200_000, 0, -300_000i64),
            ground_platform_entity(500_000, 200_000, -300_000i64, 0),
            ground_platform_entity(500_000, 200_000, 300_000, 0),
        ],
        w.wf(),
{
    let mut w = World {
        entities: Vec::new(),
        money: Money(INITIAL_MONEY),
        dynamite_key_was_held: false,
    };
    setup(&mut w);
    setup_ground(&mut w);
    setup_level_1_a(&mut w);
    setup_level_1_b(&mut w);
    proof {
        assert(w.entities@ =~= seq![
            camera_entity(),
            character_start_entity(),
            ground_platform_entity(800_000, 200_000, 0, -300_000i64),
            ground_platform_entity(500_000, 200_000, -300_000i64, 0),
            ground_platform_entity(500_000, 200_000, 300_000, 0),
        ]);
        lemma_startup_population(w.entities@);
    }
    w
}

/// The freshly built scene satisfies the population invariant and every
/// entity in it is well-formed.
proof fn lemma_startup_population(s: Seq<Entity>)
    requires
        s == seq![
            camera_entity(),
            character_start_entity(),
            ground_platform_entity(800_000, 200_000, 0, -300_000i64),
            ground_platform_entity(500_000, 200_000, -300_000i64, 0),
            ground_platform_entity(500_000, 200_000, 300_000, 0),
        ],
    ensures
        count_kind(s, EntityKind::Character) == 1,
        count_kind(s, EntityKind::GroundPlatform) == 3,
        forall|i: int| 0 <= i < s.len() ==> #[trigger] s[i].wf(),
{
    let s0 = Seq::<Entity>::empty();
    let s1 = s0.push(camera_entity());
    let s2 = s1.push(character_start_entity());
    let s3 = s2.push(ground_platform_entity(800_000, 200_000, 0, -300_000i64));
    let s4 = s3.push(ground_platform_entity(500_000, 200_000, -300_000i64, 0));
    let s5 = s4.push(ground_platform_entity(500_000, 200_000, 300_000, 0));
    assert(s =~= s5);
    crate::entity::lemma_count_kind_push(s0, EntityKind::Character, camera_entity());
    crate::entity::lemma_count_kind_push(s1, EntityKind::Character, character_start_entity());
    crate::entity::lemma_count_kind_push(
        s2,
        EntityKind::Character,
        ground_platform_entity(800_000, 200_000, 0, -300_000i64),
    );
    crate::entity::lemma_count_kind_push(
        s3,
        EntityKind::Character,
        ground_platform_entity(500_000, 200_000, -300_000i64, 0),
    );
    crate::entity::lemma_count_kind_push(
        s4,
        EntityKind::Character,
        ground_platform_entity(500_000, 200_000, 300_000, 0),
    );
    crate::entity::lemma_count_kind_push(s0, EntityKind::GroundPlatform, camera_entity());
    crate::entity::lemma_count_kind_push(
        s1,
        EntityKind::GroundPlatform,
        character_start_entity(),
    );
    crate::entity::lemma_count_kind_push(
        s2,
        EntityKind::GroundPlatform,
        ground_platform_entity(800_000, 200_000, 0, -300_000i64),
    );
    crate::entity::lemma_count_kind_push(
        s3,
        EntityKind::GroundPlatform,
        ground_platform_entity(500_000, 200_000, -300_000i64, 0),
    );
    crate::entity::lemma_count_kind_push(
        s4,
        EntityKind::GroundPlatform,
        ground_platform_entity(500_000, 200_000, 300_000, 0),
    );
    assert forall|i: int| 0 <= i < s.len() implies #[trigger] s[i].wf() by {
        if i == 0 {
            assert(s[0].wf());
        } else if i == 1 {
            assert(s[1].wf());
        } else if i == 2 {
            assert(s[2].wf());
        } else if i == 3 {
            assert(s[3].wf());
        } else {
            assert(s[4].wf());
        }
    }
}

} // verus!
