use rekt::bindings::{InputMap, LogicalInput};
use rekt::index::{KeyIndex, INPUTS};
use rekt::keys::{key_with_code, Key, NAMED_KEYS};

fn named_keys() -> Vec<Key> {
    (0..NAMED_KEYS).map(|code| key_with_code(code).unwrap()).collect()
}

#[test]
fn every_key_has_its_own_code() {
    let mut keys = named_keys();
    keys.push(Key::Unknown(0));
    keys.push(Key::Unknown(1));
    keys.push(Key::Unknown(u32::MAX));
    for (at, key) in keys.iter().enumerate() {
        for other in &keys[at + 1..] {
            assert_ne!(key.code(), other.code(), "{:?} and {:?}", key, other);
        }
    }
}

#[test]
fn codes_of_some_keys() {
    assert_eq!(NAMED_KEYS, 105);
    assert_eq!(Key::Alt.code(), 0);
    assert_eq!(Key::AltGr.code(), 1);
    assert_eq!(Key::Function.code(), 104);
    assert_eq!(Key::Unknown(0).code(), 105);
    assert_eq!(Key::Unknown(7).code(), 112);
    assert_eq!(Key::Unknown(u32::MAX).code(), 105 + u64::from(u32::MAX));
}

#[test]
fn a_key_is_found_again_from_its_code() {
    for code in 0..NAMED_KEYS {
        let key = key_with_code(code).unwrap();
        assert_eq!(key.code(), code);
        assert!(!matches!(key, Key::Unknown(_)));
    }
    assert_eq!(key_with_code(0), Some(Key::Alt));
    assert_eq!(key_with_code(104), Some(Key::Function));
    assert_eq!(key_with_code(105), Some(Key::Unknown(0)));
    assert_eq!(key_with_code(105 + 42), Some(Key::Unknown(42)));
    assert_eq!(key_with_code(105 + u64::from(u32::MAX)), Some(Key::Unknown(u32::MAX)));
    assert_eq!(key_with_code(106 + u64::from(u32::MAX)), None);
    assert_eq!(key_with_code(u64::MAX), None);
}

#[test]
fn index_keeps_its_table() {
    let mut map = InputMap::standard();
    map.x = Key::KeyX;
    assert_eq!(KeyIndex::new(map).source(), map);
}

#[test]
fn index_agrees_with_the_table() {
    let map = InputMap::standard();
    let index = KeyIndex::new(map);
    let mut bound = 0;
    for key in named_keys() {
        assert_eq!(index.lookup(key), map.lookup(key));
        if index.lookup(key).is_some() {
            bound += 1;
        }
    }
    assert_eq!(bound, INPUTS);
    assert_eq!(index.lookup(Key::KeyO), Some(LogicalInput::Left));
    assert_eq!(index.lookup(Key::KeyQ), None);
    assert_eq!(index.lookup(Key::Unknown(12)), None);
}

#[test]
fn index_agrees_with_the_table_on_shared_keys() {
    let mut map = InputMap::standard();
    map.debug = Key::KeyF;
    map.mod_y = Key::Kp4;
    map.z = Key::Kp4;
    map.up = Key::Unknown(3);
    map.c_right = Key::Unknown(3);
    map.left = Key::Unknown(4);
    let index = KeyIndex::new(map);
    let mut keys = named_keys();
    for code in 0..8 {
        keys.push(Key::Unknown(code));
    }
    for key in keys {
        assert_eq!(index.lookup(key), map.lookup(key));
    }
    assert_eq!(index.lookup(Key::KeyF), Some(LogicalInput::Start));
    assert_eq!(index.lookup(Key::Kp4), Some(LogicalInput::B));
    assert_eq!(index.lookup(Key::Unknown(3)), Some(LogicalInput::Up));
    assert_eq!(index.lookup(Key::Unknown(4)), Some(LogicalInput::Left));
    assert_eq!(index.lookup(Key::Kp6), None);
    assert_eq!(index.lookup(Key::SemiColon), None);
}
