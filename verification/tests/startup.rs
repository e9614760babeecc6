use platform_game::entity::{EntityKind, RigidBodyKind, TextureId, CHARACTER_SPEED};
use platform_game::money::INITIAL_MONEY;
use platform_game::world::{initialize, window_config};

#[test]
fn startup_money_is_100() {
    let w = initialize();
    assert_eq!(w.money.0, 100);
    assert_eq!(INITIAL_MONEY, 100);
}

#[test]
fn startup_character_position_and_attributes() {
    let w = initialize();
    let characters: Vec<_> =
        w.entities.iter().filter(|e| e.kind == EntityKind::Character).collect();
    assert_eq!(characters.len(), 1);
    let c = characters[0];
    assert_eq!(c.translation.x, -210_000);
    assert_eq!(c.translation.y, 40_000);
    assert_eq!(c.translation.z, 0);
    let sprite = c.sprite.unwrap();
    assert_eq!(sprite.width_milli, 100_000);
    assert_eq!(sprite.height_milli, 100_000);
    assert_eq!(sprite.texture, TextureId::Character);
    assert_eq!(c.body, Some(RigidBodyKind::Dynamic));
    let collider = c.collider.unwrap();
    assert_eq!(collider.half_width_milli, 50_000);
    assert_eq!(collider.half_height_milli, 50_000);
    assert_eq!(c.character.unwrap().speed, CHARACTER_SPEED);
    assert_eq!(CHARACTER_SPEED, 300);
}

#[test]
fn startup_ground_platforms() {
    let w = initialize();
    let grounds: Vec<_> =
        w.entities.iter().filter(|e| e.kind == EntityKind::GroundPlatform).collect();
    assert_eq!(grounds.len(), 3);

    let positions: Vec<(i64, i64)> =
        grounds.iter().map(|e| (e.translation.x, e.translation.y)).collect();
    assert!(positions.contains(&(0, -300_000)));
    assert!(positions.contains(&(-300_000, 0)));
    assert!(positions.contains(&(300_000, 0)));

    for g in &grounds {
        assert_eq!(g.body, Some(RigidBodyKind::Fixed));
        let sprite = g.sprite.unwrap();
        assert_eq!(sprite.texture, TextureId::Ground);
        let collider = g.collider.unwrap();
        assert_eq!(collider.half_width_milli, sprite.width_milli / 2);
        assert_eq!(collider.half_height_milli, sprite.height_milli / 2 - 10_000);
        if g.translation.y == -300_000 {
            assert_eq!(sprite.width_milli, 800_000);
        } else {
            assert_eq!(sprite.width_milli, 500_000);
        }
        assert_eq!(sprite.height_milli, 200_000);
    }
}

#[test]
fn startup_has_one_camera_at_origin() {
    let w = initialize();
    let cameras: Vec<_> = w.entities.iter().filter(|e| e.kind == EntityKind::Camera).collect();
    assert_eq!(cameras.len(), 1);
    assert_eq!(cameras[0].translation.x, 0);
    assert_eq!(cameras[0].translation.y, 0);
    assert!(cameras[0].sprite.is_none());
}

#[test]
fn window_is_platform_game_960_by_720() {
    let window = window_config();
    assert_eq!(window.title, "Platform Game");
    assert_eq!(window.width, 960);
    assert_eq!(window.height, 720);
    assert!(window.resizable);
}

#[test]
fn texture_asset_paths() {
    assert_eq!(TextureId::Character.asset_path(), "character.png");
    assert_eq!(TextureId::Ground.asset_path(), "ground.png");
    assert_eq!(TextureId::Dynamite.asset_path(), "dynamite.png");
    assert_eq!(TextureId::BronzeCoin.asset_path(), "bronze coin.png");
}
