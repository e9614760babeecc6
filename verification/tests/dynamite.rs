use platform_game::entity::{EntityKind, RigidBodyKind, TextureId};
use platform_game::input::KeyboardInput;
use platform_game::systems::{spawn_dynamite, step_frame};
use platform_game::world::{initialize, World};

fn dynamite_count(w: &World) -> usize {
    w.entities.iter().filter(|e| e.kind == EntityKind::Dynamite).count()
}

fn character_position(w: &World) -> (i64, i64) {
    let c = w.entities.iter().find(|e| e.kind == EntityKind::Character).unwrap();
    (c.translation.x, c.translation.y)
}

fn press_e() -> KeyboardInput {
    let mut keys = KeyboardInput::released();
    keys.dynamite = true;
    keys
}

#[test]
fn press_and_release_spawns_one_dynamite_for_20() {
    let mut w = initialize();
    let at = character_position(&w);
    let spent = spawn_dynamite(&mut w, &press_e());
    assert_eq!(spent, Some(80));
    assert_eq!(w.money.0, 80);
    assert_eq!(dynamite_count(&w), 1);
    let d = w.entities.iter().find(|e| e.kind == EntityKind::Dynamite).unwrap();
    assert_eq!((d.translation.x, d.translation.y), at);
    assert_eq!(d.body, Some(RigidBodyKind::Dynamic));
    assert_eq!(d.gravity_scale_milli, Some(900));
    let sprite = d.sprite.unwrap();
    assert_eq!(sprite.width_milli, 60_000);
    assert_eq!(sprite.height_milli, 60_000);
    assert_eq!(sprite.texture, TextureId::Dynamite);
    // Release: no new spawn on the falling edge.
    let spent = spawn_dynamite(&mut w, &KeyboardInput::released());
    assert_eq!(spent, None);
    assert_eq!(dynamite_count(&w), 1);
    assert_eq!(w.money.0, 80);
}

#[test]
fn purchase_log_balance_contains_80() {
    let mut w = initialize();
    let spent = spawn_dynamite(&mut w, &press_e());
    let line = format!("Placed Dynamite!!! Cost: 20!!! Total Amount: {}", spent.unwrap());
    assert!(line.contains("80"));
}

#[test]
fn holding_e_for_60_frames_spawns_once() {
    let mut w = initialize();
    for _ in 0..60 {
        step_frame(&mut w, &press_e(), 16);
    }
    assert_eq!(dynamite_count(&w), 1);
    assert_eq!(w.money.0, 80);
}

#[test]
fn five_presses_drain_the_balance_and_a_sixth_does_nothing() {
    let mut w = initialize();
    let mut balances = Vec::new();
    for _ in 0..5 {
        let spent = spawn_dynamite(&mut w, &press_e());
        balances.push(w.money.0);
        assert_eq!(spent, Some(w.money.0));
        spawn_dynamite(&mut w, &KeyboardInput::released());
    }
    assert_eq!(balances, vec![80, 60, 40, 20, 0]);
    assert_eq!(dynamite_count(&w), 5);
    // The sixth press: no funds, no spawn, balance stays at 0.
    let spent = spawn_dynamite(&mut w, &press_e());
    assert_eq!(spent, None);
    assert_eq!(w.money.0, 0);
    assert_eq!(dynamite_count(&w), 5);
}

#[test]
fn attempt_below_price_changes_nothing() {
    let mut w = initialize();
    w.money.0 = 19;
    let entities_before = w.entities.clone();
    let spent = spawn_dynamite(&mut w, &press_e());
    assert_eq!(spent, None);
    assert_eq!(w.money.0, 19);
    assert_eq!(w.entities, entities_before);
}

#[test]
fn spawn_uses_the_transform_after_movement() {
    let mut w = initialize();
    let (x0, y0) = character_position(&w);
    let mut keys = press_e();
    keys.right = true;
    step_frame(&mut w, &keys, 100);
    let d = w.entities.iter().find(|e| e.kind == EntityKind::Dynamite).unwrap();
    assert_eq!((d.translation.x, d.translation.y), (x0 + 30_000, y0));
}
