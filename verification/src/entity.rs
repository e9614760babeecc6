//! The scene's data model: every world entity is a plain record of the
//! attributes the game logic reads, plus the spec-level archetypes that
//! the world builder and the spawners promise to produce. The engine that
//! renders and simulates the scene mirrors these records; it owns textures,
//! rigid bodies and colliders itself.

use vstd::prelude::*;
use crate::geometry::Translation;

verus! {

/// The character's walking speed, in world units per second.
pub const CHARACTER_SPEED: u32 = 300;

/// Which image a sprite is drawn with. The engine resolves the
/// corresponding asset path from `asset_path`.
#[derive(Clone, Copy, PartialEq, Eq, Structural, Debug)]
pub enum TextureId {
    Character,
    Ground,
    Dynamite,
    BronzeCoin,
}

/// The asset file each texture is loaded from, relative to the assets
/// directory.
pub open spec fn asset_path_spec(t: TextureId) -> Seq<char> {
    match t {
        TextureId::Character => "character.png"@,
        TextureId::Ground => "ground.png"@,
        TextureId::Dynamite => "dynamite.png"@,
        TextureId::BronzeCoin => "bronze coin.png"@,
    }
}

impl TextureId {
    /// The asset file this texture is loaded from.
    pub fn asset_path(&self) -> (path: &'static str)
        ensures
            path@ == asset_path_spec(*self),
    {
        match self {
            TextureId::Character => "character.png",
            TextureId::Ground => "ground.png",
            TextureId::Dynamite => "dynamite.png",
            TextureId::BronzeCoin => "bronze coin.png",
        }
    }
}

/// How the physics collaborator treats a body: `Dynamic` integrates
/// forces, `Fixed` never moves.
#[derive(Clone, Copy, PartialEq, Eq, Structural, Debug)]
pub enum RigidBodyKind {
    Dynamic,
    Fixed,
}

/// An axis-aligned box collider, given by half-extents in milliunits.
#[derive(Clone, Copy, PartialEq, Eq, Structural, Debug)]
pub struct ColliderBox {
    pub half_width_milli: i64,
    pub half_height_milli: i64,
}

/// A drawn sprite: its on-screen size in milliunits and its texture.
#[derive(Clone, Copy, PartialEq, Eq, Structural, Debug)]
pub struct Sprite {
    pub width_milli: i64,
    pub height_milli: i64,
    pub texture: TextureId,
}

/// The capability that marks the one player-controlled entity and carries
/// its movement speed in world units per second.
#[derive(Clone, Copy, PartialEq, Eq, Structural, Debug)]
pub struct MainCharacter {
    pub speed: u32,
}

/// What role an entity plays in the scene.
#[derive(Clone, Copy, PartialEq, Eq, Structural, Debug)]
pub enum EntityKind {
    Camera,
    Character,
    GroundPlatform,
    Dynamite,
    BronzeCoin,
}

/// One world entity: its role and the attributes the game logic reads.
/// Attributes an entity does not have are `None` (the camera has no
/// sprite; only the dynamite overrides its gravity scale, in thousandths
/// of the global gravity).
#[derive(Clone, Copy, PartialEq, Eq, Debug)]
pub struct Entity {
    pub kind: EntityKind,
    pub translation: Translation,
    pub sprite: Option<Sprite>,
    pub body: Option<RigidBodyKind>,
    pub collider: Option<ColliderBox>,
    pub gravity_scale_milli: Option<u32>,
    pub character: Option<MainCharacter>,
}

impl Entity {
    /// An entity is the character exactly when it carries the
    /// `MainCharacter` capability.
    pub open spec fn wf(self) -> bool {
        self.kind == EntityKind::Character <==> self.character.is_some()
    }
}

/// The orthographic 2D camera, at the origin.
pub open spec fn camera_entity() -> Entity {
    Entity {
        kind: EntityKind::Camera,
        translation: Translation { x: 0, y: 0, z: 0 },
        sprite: None,
        body: None,
        collider: None,
        gravity_scale_milli: None,
        character: None,
    }
}

/// The character as the world builder creates it: a dynamic body with a
/// 50x50-unit half-extent box collider, a 100x100-unit sprite, standing
/// at (-210, 40).
pub open spec fn character_start_entity() -> Entity {
    Entity {
        kind: EntityKind::Character,
        translation: Translation { x: -210_000i64, y: 40_000, z: 0 },
        sprite: Some(Sprite { width_milli: 100_000, height_milli: 100_000, texture: TextureId::Character }),
        body: Some(RigidBodyKind::Dynamic),
        collider: Some(ColliderBox { half_width_milli: 50_000, half_height_milli: 50_000 }),
        gravity_scale_milli: None,
        character: Some(MainCharacter { speed: CHARACTER_SPEED }),
    }
}

/// A ground platform of the given sprite size at the given position, all
/// in milliunits: a fixed body whose collider half-extents are half the
/// sprite size, less 10 units of height.
pub open spec fn ground_platform_entity(width_milli: i64, height_milli: i64, x_milli: i64, y_milli: i64) -> Entity {
    Entity {
        kind: EntityKind::GroundPlatform,
        translation: Translation { x: x_milli, y: y_milli, z: 0 },
        sprite: Some(Sprite { width_milli: width_milli, height_milli: height_milli, texture: TextureId::Ground }),
        body: Some(RigidBodyKind::Fixed),
        collider: Some(ColliderBox {
            half_width_milli: (width_milli / 2) as i64,
            half_height_milli: (height_milli / 2 - 10_000) as i64,
        }),
        gravity_scale_milli: None,
        character: None,
    }
}

/// A dynamite stick the moment it is spawned: a dynamic body at 0.9
/// gravity with a 60x60-unit sprite, dropped at the spawning transform.
pub open spec fn dynamite_entity(at: Translation) -> Entity {
    Entity {
        kind: EntityKind::Dynamite,
        translation: at,
        sprite: Some(Sprite { width_milli: 60_000, height_milli: 60_000, texture: TextureId::Dynamite }),
        body: Some(RigidBodyKind::Dynamic),
        collider: None,
        gravity_scale_milli: Some(900),
        character: None,
    }
}

/// A bronze coin as placed by the level author: a 60x60-unit sprite at
/// (10, 0), with no rigid body.
pub open spec fn bronze_coin_entity() -> Entity {
    Entity {
        kind: EntityKind::BronzeCoin,
        translation: Translation { x: 10_000, y: 0, z: 0 },
        sprite: Some(Sprite { width_milli: 60_000, height_milli: 60_000, texture: TextureId::BronzeCoin }),
        body: None,
        collider: None,
        gravity_scale_milli: None,
        character: None,
    }
}

/// How many entities of kind `k` the scene holds.
pub open spec fn count_kind(s: Seq<Entity>, k: EntityKind) -> int
    decreases s.len(),
{
    if s.len() == 0 {
        0
    } else {
        count_kind(s.drop_last(), k) + if s.last().kind == k {
            1int
        } else {
            0int
        }
    }
}

/// Appending one entity raises exactly its own kind's count by one.
pub proof fn lemma_count_kind_push(s: Seq<Entity>, k: EntityKind, e: Entity)
    ensures
        count_kind(s.push(e), k) == count_kind(s, k) + if e.kind == k {
            1int
        } else {
            0int
        },
{
    assert(s.push(e).drop_last() =~= s);
}

/// Kind counts never go negative and never exceed the scene's size.
pub proof fn lemma_count_kind_bounds(s: Seq<Entity>, k: EntityKind)
    ensures
        0 <= count_kind(s, k) <= s.len(),
    decreases s.len(),
{
    if s.len() > 0 {
        lemma_count_kind_bounds(s.drop_last(), k);
    }
}

/// Kind counts only look at the kinds: two scenes of equal length whose
/// entities agree pointwise on `kind` have equal counts.
pub proof fn lemma_count_kind_same_kinds(s1: Seq<Entity>, s2: Seq<Entity>, k: EntityKind)
    requires
        s1.len() == s2.len(),
        forall|i: int| 0 <= i < s1.len() ==> s1[i].kind == s2[i].kind,
    ensures
        count_kind(s1, k) == count_kind(s2, k),
    decreases s1.len(),
{
    if s1.len() > 0 {
        assert(forall|i: int|
            0 <= i < s1.drop_last().len() ==> s1.drop_last()[i].kind == s2.drop_last()[i].kind);
        lemma_count_kind_same_kinds(s1.drop_last(), s2.drop_last(), k);
    }
}

/// A zero count means no entity of that kind anywhere in the scene.
pub proof fn lemma_count_kind_zero(s: Seq<Entity>, k: EntityKind)
    requires
        count_kind(s, k) == 0,
    ensures
        forall|i: int| 0 <= i < s.len() ==> s[i].kind != k,
    decreases s.len(),
{
    if s.len() > 0 {
        lemma_count_kind_bounds(s.drop_last(), k);
        lemma_count_kind_zero(s.drop_last(), k);
        assert(forall|i: int| 0 <= i < s.len() - 1 ==> s[i] == s.drop_last()[i]);
    }
}

/// A positive count yields a witness index of that kind.
pub proof fn lemma_count_kind_pos(s: Seq<Entity>, k: EntityKind)
    requires
        count_kind(s, k) >= 1,
    ensures
        exists|i: int| 0 <= i < s.len() && s[i].kind == k,
    decreases s.len(),
{
    if s.last().kind == k {
        assert(s[s.len() - 1].kind == k);
    } else {
        lemma_count_kind_pos(s.drop_last(), k);
        let i = choose|i: int| 0 <= i < s.drop_last().len() && s.drop_last()[i].kind == k;
        assert(s[i].kind == k);
    }
}

/// With a count of one, any two indices of that kind coincide.
pub proof fn lemma_count_kind_one_unique(s: Seq<Entity>, k: EntityKind, i: int, j: int)
    requires
        count_kind(s, k) == 1,
        0 <= i < s.len(),
        0 <= j < s.len(),
        s[i].kind == k,
        s[j].kind == k,
    ensures
        i == j,
    decreases s.len(),
{
    lemma_count_kind_bounds(s.drop_last(), k);
    if s.last().kind == k {
        lemma_count_kind_zero(s.drop_last(), k);
        assert(forall|m: int| 0 <= m < s.len() - 1 ==> s[m] == s.drop_last()[m]);
        assert(i == s.len() - 1 && j == s.len() - 1);
    } else {
        assert(i < s.len() - 1 && j < s.len() - 1);
        assert(s.drop_last()[i] == s[i] && s.drop_last()[j] == s[j]);
        lemma_count_kind_one_unique(s.drop_last(), k, i, j);
    }
}

/// The index of the scene's character; meaningful when exactly one
/// character exists.
pub open spec fn character_index(s: Seq<Entity>) -> int {
    choose|i: int| 0 <= i < s.len() && s[i].kind == EntityKind::Character
}

/// The scene's one character entity.
pub open spec fn the_character(s: Seq<Entity>) -> Entity {
    s[character_index(s)]
}

/// With exactly one character in the scene, `character_index` is in
/// bounds, names a character, and is the only index that does.
pub proof fn lemma_character_index(s: Seq<Entity>)
    requires
        count_kind(s, EntityKind::Character) == 1,
    ensures
        0 <= character_index(s) < s.len(),
        s[character_index(s)].kind == EntityKind::Character,
        forall|i: int|
            0 <= i < s.len() && s[i].kind == EntityKind::Character ==> i == character_index(s),
{
    lemma_count_kind_pos(s, EntityKind::Character);
    assert forall|i: int|
        0 <= i < s.len() && s[i].kind == EntityKind::Character implies i == character_index(s) by {
        lemma_count_kind_one_unique(s, EntityKind::Character, i, character_index(s));
    }
}

} // verus!
