use platform_game::entity::EntityKind;
use platform_game::input::KeyboardInput;
use platform_game::systems::{collect_bronze_coin, move_character, spawn_bronze_coin, step_frame};
use platform_game::world::{initialize, World};

fn coin_count(w: &World) -> usize {
    w.entities.iter().filter(|e| e.kind == EntityKind::BronzeCoin).count()
}

fn character_position(w: &World) -> (i64, i64) {
    let c = w.entities.iter().find(|e| e.kind == EntityKind::Character).unwrap();
    (c.translation.x, c.translation.y)
}

#[test]
fn coin_is_placed_at_10_0() {
    let mut w = initialize();
    spawn_bronze_coin(&mut w);
    assert_eq!(coin_count(&w), 1);
    let coin = w.entities.iter().find(|e| e.kind == EntityKind::BronzeCoin).unwrap();
    assert_eq!((coin.translation.x, coin.translation.y, coin.translation.z), (10_000, 0, 0));
    assert!(coin.body.is_none());
}

#[test]
fn walking_into_the_coin_collects_it_for_5() {
    let mut w = initialize();
    spawn_bronze_coin(&mut w);
    // Walk the character from (-210, 40) to (9.9, 0.1): well inside the
    // collection radius of the coin at (10, 0).
    let mut keys = KeyboardInput::released();
    keys.right = true;
    move_character(&mut w, &keys, 733);
    keys.right = false;
    keys.down = true;
    move_character(&mut w, &keys, 133);
    assert_eq!(character_position(&w), (9_900, 100));
    let money_before = w.money.0;
    step_frame(&mut w, &KeyboardInput::released(), 16);
    assert_eq!(coin_count(&w), 0);
    assert_eq!(w.money.0, money_before + 5);
}

#[test]
fn a_coin_out_of_reach_stays() {
    let mut w = initialize();
    spawn_bronze_coin(&mut w);
    // The character starts at (-210, 40), far from (10, 0).
    let money_before = w.money.0;
    collect_bronze_coin(&mut w);
    assert_eq!(coin_count(&w), 1);
    assert_eq!(w.money.0, money_before);
}

#[test]
fn collection_radius_is_30_units() {
    // A coin exactly 30 units away is collected; one a hair farther is not.
    let mut w = initialize();
    spawn_bronze_coin(&mut w);
    let (cx, _) = {
        let coin = w.entities.iter().find(|e| e.kind == EntityKind::BronzeCoin).unwrap();
        (coin.translation.x, coin.translation.y)
    };
    // Put the character exactly 30 units left of the coin.
    for e in w.entities.iter_mut() {
        if e.kind == EntityKind::Character {
            e.translation.x = cx - 30_000;
            e.translation.y = 0;
        }
    }
    collect_bronze_coin(&mut w);
    assert_eq!(coin_count(&w), 0);

    let mut w2 = initialize();
    spawn_bronze_coin(&mut w2);
    for e in w2.entities.iter_mut() {
        if e.kind == EntityKind::Character {
            e.translation.x = cx - 30_001;
            e.translation.y = 0;
        }
    }
    collect_bronze_coin(&mut w2);
    assert_eq!(coin_count(&w2), 1);
}

#[test]
fn credits_saturate_at_255() {
    let mut w = initialize();
    w.money.0 = 253;
    spawn_bronze_coin(&mut w);
    for e in w.entities.iter_mut() {
        if e.kind == EntityKind::Character {
            e.translation.x = 10_000;
            e.translation.y = 0;
        }
    }
    collect_bronze_coin(&mut w);
    assert_eq!(w.money.0, 255);
}

#[test]
fn two_coins_in_reach_are_both_collected() {
    let mut w = initialize();
    spawn_bronze_coin(&mut w);
    spawn_bronze_coin(&mut w);
    for e in w.entities.iter_mut() {
        if e.kind == EntityKind::Character {
            e.translation.x = 10_000;
            e.translation.y = 0;
        }
    }
    let money_before = w.money.0;
    collect_bronze_coin(&mut w);
    assert_eq!(coin_count(&w), 0);
    assert_eq!(w.money.0, money_before + 10);
}
