use rust64::c64::io::{Keyboard, HostKey};
use rust64::c64::cia::CIA;

#[test]
fn key_codes_follow_the_matrix() {
    let k = Keyboard::new();
    assert_eq!(k.keycode_to_c64(HostKey::A), (1 << 3) | 2);
    assert_eq!(k.keycode_to_c64(HostKey::Space), (7 << 3) | 4);
    assert_eq!(k.keycode_to_c64(HostKey::Up), 7 | 0x80);
    assert_eq!(k.keycode_to_c64(HostKey::F2), 4 | 0x80);
}

#[test]
fn pressing_a_clears_its_matrix_bits() {
    let mut k = Keyboard::new();
    let mut cia = CIA::new_shared();
    k.on_key_press(HostKey::A, &mut cia);
    assert_eq!(cia.key_matrix[1], 0xFB);
    assert_eq!(cia.rev_matrix[2], 0xFD);
    assert!(k.pressed_keys[10]);
}

#[test]
fn shifted_key_also_presses_shift() {
    let mut k = Keyboard::new();
    let mut cia = CIA::new_shared();
    k.on_key_press(HostKey::Up, &mut cia);
    assert_eq!(cia.key_matrix[6], 0xEF);
    assert_eq!(cia.rev_matrix[4], 0xBF);
    assert_eq!(cia.key_matrix[0], 0x7F);
    assert_eq!(cia.rev_matrix[7], 0xFE);
}

#[test]
fn release_after_press_restores_the_matrix() {
    let mut k = Keyboard::new();
    let mut cia = CIA::new_shared();
    k.process_key(true, HostKey::F4, &mut cia);
    k.process_key(false, HostKey::F4, &mut cia);
    assert_eq!(cia.key_matrix, [0xFF; 8]);
    assert_eq!(cia.rev_matrix, [0xFF; 8]);
    assert!(!k.pressed_keys[0x85]);
}

#[test]
fn pressing_twice_changes_nothing_more() {
    let mut k = Keyboard::new();
    let mut cia = CIA::new_shared();
    k.on_key_press(HostKey::Q, &mut cia);
    let km = cia.key_matrix;
    k.on_key_press(HostKey::Q, &mut cia);
    assert_eq!(cia.key_matrix, km);
}

#[test]
fn releasing_a_key_not_held_changes_nothing() {
    let mut k = Keyboard::new();
    let mut cia = CIA::new_shared();
    k.on_key_release(HostKey::Z, &mut cia);
    assert_eq!(cia.key_matrix, [0xFF; 8]);
}

fn code(row: u8, col: u8) -> u8 {
    row * 8 + col
}

#[test]
fn special_keys_follow_the_documented_mapping() {
    let k = Keyboard::new();
    // ESC - Run/Stop, TAB - Control, LCTRL - C=, ` - <-
    assert_eq!(k.keycode_to_c64(HostKey::Escape), code(7, 7));
    assert_eq!(k.keycode_to_c64(HostKey::Tab), code(7, 2));
    assert_eq!(k.keycode_to_c64(HostKey::LeftCtrl), code(7, 5));
    assert_eq!(k.keycode_to_c64(HostKey::Backquote), code(7, 1));
    // - is +, INS the pound key, HOME CLR/Home, BSPACE INST/DEL
    assert_eq!(k.keycode_to_c64(HostKey::Minus), code(5, 0));
    assert_eq!(k.keycode_to_c64(HostKey::Insert), code(6, 0));
    assert_eq!(k.keycode_to_c64(HostKey::Home), code(6, 3));
    assert_eq!(k.keycode_to_c64(HostKey::Backspace), code(0, 0));
    // [ is @, ] is *, DEL is ^, ; is :, ' is ;, \ is =
    assert_eq!(k.keycode_to_c64(HostKey::LeftBracket), code(5, 6));
    assert_eq!(k.keycode_to_c64(HostKey::RightBracket), code(6, 1));
    assert_eq!(k.keycode_to_c64(HostKey::Delete), code(6, 6));
    assert_eq!(k.keycode_to_c64(HostKey::Semicolon), code(5, 5));
    assert_eq!(k.keycode_to_c64(HostKey::Apostrophe), code(6, 2));
    assert_eq!(k.keycode_to_c64(HostKey::Backslash), code(6, 5));
}
