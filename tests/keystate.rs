use chipolata::{ErrorDetail, KeyState};

const NUMBER_OF_KEYS: u8 = 16;
#[test]
fn test_is_key_pressed_yes() {
    let mut keys: KeyState = KeyState::new();
    keys.keys_pressed[0x2] = true;
    assert!(keys.is_key_pressed(0x2).unwrap());
}

#[test]
fn test_is_key_pressed_no() {
    let mut keys: KeyState = KeyState::new();
    keys.keys_pressed[0x2] = false;
    assert!(!keys.is_key_pressed(0x2).unwrap());
}

#[test]
fn test_is_key_pressed_error() {
    let keys: KeyState = KeyState::new();
    assert_eq!(
        keys.is_key_pressed(NUMBER_OF_KEYS).unwrap_err(),
        ErrorDetail::InvalidKey {
            key: NUMBER_OF_KEYS
        }
    );
}

#[test]
fn test_set_key_status() {
    let mut keys: KeyState = KeyState::new();
    keys.set_key_status(0x2, true).unwrap();
    assert!(keys.keys_pressed[0x2] == true);
}

#[test]
fn test_set_key_status_error() {
    let mut keys: KeyState = KeyState::new();
    assert_eq!(
        keys.set_key_status(NUMBER_OF_KEYS, true).unwrap_err(),
        ErrorDetail::InvalidKey {
            key: NUMBER_OF_KEYS
        }
    );
}

#[test]
fn test_get_keys_pressed() {
    let mut keys: KeyState = KeyState::new();
    keys.keys_pressed[0x2] = true;
    keys.keys_pressed[0x7] = true;
    keys.keys_pressed[0xF] = true;
    let key_vector: Vec<u8> = keys.get_keys_pressed().unwrap();
    assert_eq!(key_vector, vec![0x2, 0x7, 0xF]);
}

#[test]
fn test_get_keys_pressed_none() {
    let keys: KeyState = KeyState::new();
    assert!(keys.get_keys_pressed().is_none());
}
