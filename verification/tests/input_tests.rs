use lyutmc::input::{InputManager, Key};

#[test]
fn fresh_table_has_no_key_pressed() {
    let input = InputManager::new();
    for key in [Key::W, Key::A, Key::S, Key::D, Key::Space, Key::F11, Key::Other(0), Key::Other(u32::MAX)] {
        assert!(!input.key_pressed(key));
    }
}

#[test]
fn set_key_is_read_back() {
    let mut input = InputManager::new();
    input.set_key_state(Key::W, true);
    assert!(input.key_pressed(Key::W));
    input.set_key_state(Key::W, false);
    assert!(!input.key_pressed(Key::W));
}

#[test]
fn setting_one_key_leaves_the_others() {
    let mut input = InputManager::new();
    input.set_key_state(Key::A, true);
    input.set_key_state(Key::D, false);
    input.set_key_state(Key::Other(7), true);
    assert!(input.key_pressed(Key::A));
    assert!(!input.key_pressed(Key::D));
    assert!(input.key_pressed(Key::Other(7)));
    assert!(!input.key_pressed(Key::W));
    assert!(!input.key_pressed(Key::S));
    assert!(!input.key_pressed(Key::Other(8)));
}

#[test]
fn unnamed_keys_do_not_collide_with_named_ones() {
    let mut input = InputManager::new();
    for code in 0..16u32 {
        input.set_key_state(Key::Other(code), true);
    }
    input.set_key_state(Key::Other(u32::MAX), true);
    for key in [Key::W, Key::A, Key::S, Key::D, Key::Space, Key::F11] {
        assert!(!input.key_pressed(key));
    }
    assert!(input.key_pressed(Key::Other(u32::MAX)));
    assert!(!input.key_pressed(Key::Other(u32::MAX - 1)));
}

#[test]
fn named_keys_do_not_collide_with_unnamed_ones() {
    let mut input = InputManager::new();
    for key in [Key::W, Key::A, Key::S, Key::D, Key::Space, Key::F11] {
        input.set_key_state(key, true);
    }
    for code in 0..16u32 {
        assert!(!input.key_pressed(Key::Other(code)));
    }
}

#[test]
fn clear_releases_only_the_named_key() {
    let mut input = InputManager::new();
    input.set_key_state(Key::Space, true);
    input.set_key_state(Key::W, true);
    input.clear(Key::Space);
    assert!(!input.key_pressed(Key::Space));
    assert!(input.key_pressed(Key::W));
    input.clear(Key::F11);
    assert!(!input.key_pressed(Key::F11));
}
