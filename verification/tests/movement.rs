use platform_game::entity::EntityKind;
use platform_game::input::KeyboardInput;
use platform_game::systems::move_character;
use platform_game::world::{initialize, World};

fn character_position(w: &World) -> (i64, i64) {
    let c = w.entities.iter().find(|e| e.kind == EntityKind::Character).unwrap();
    (c.translation.x, c.translation.y)
}

#[test]
fn null_input_leaves_position_unchanged() {
    let mut w = initialize();
    let before = character_position(&w);
    move_character(&mut w, &KeyboardInput::released(), 16);
    assert_eq!(character_position(&w), before);
}

#[test]
fn held_dynamite_key_moves_nothing() {
    let mut w = initialize();
    let before = character_position(&w);
    let mut keys = KeyboardInput::released();
    keys.dynamite = true;
    move_character(&mut w, &keys, 16);
    assert_eq!(character_position(&w), before);
}

#[test]
fn left_and_right_together_cancel() {
    let mut w = initialize();
    let before = character_position(&w);
    let mut keys = KeyboardInput::released();
    keys.left = true;
    keys.right = true;
    move_character(&mut w, &keys, 250);
    assert_eq!(character_position(&w), before);
}

#[test]
fn one_second_right_moves_300_units() {
    let mut w = initialize();
    let (x0, y0) = character_position(&w);
    let mut keys = KeyboardInput::released();
    keys.right = true;
    // One second of wall time, cut into uneven frames.
    for dt_ms in [16, 34, 250, 450, 200, 50] {
        move_character(&mut w, &keys, dt_ms);
    }
    let (x1, y1) = character_position(&w);
    assert_eq!(x1 - x0, 300_000);
    assert_eq!(y1, y0);
}

#[test]
fn one_second_left_undoes_one_second_right() {
    let mut w = initialize();
    let (x0, _) = character_position(&w);
    let mut keys = KeyboardInput::released();
    keys.right = true;
    for _ in 0..10 {
        move_character(&mut w, &keys, 100);
    }
    assert_eq!(character_position(&w).0 - x0, 300_000);
    keys.right = false;
    keys.left = true;
    for _ in 0..4 {
        move_character(&mut w, &keys, 250);
    }
    assert_eq!(character_position(&w).0, x0);
}

#[test]
fn down_and_jump_move_vertically() {
    let mut w = initialize();
    let (x0, y0) = character_position(&w);
    let mut keys = KeyboardInput::released();
    keys.down = true;
    move_character(&mut w, &keys, 100);
    assert_eq!(character_position(&w), (x0, y0 - 30_000));
    keys.down = false;
    keys.jump = true;
    move_character(&mut w, &keys, 200);
    assert_eq!(character_position(&w), (x0, y0 + 30_000));
}

#[test]
fn movement_touches_no_other_entity() {
    let mut w = initialize();
    let others_before: Vec<_> =
        w.entities.iter().filter(|e| e.kind != EntityKind::Character).cloned().collect();
    let mut keys = KeyboardInput::released();
    keys.right = true;
    keys.down = true;
    move_character(&mut w, &keys, 500);
    let others_after: Vec<_> =
        w.entities.iter().filter(|e| e.kind != EntityKind::Character).cloned().collect();
    assert_eq!(others_after, others_before);
}
