// Keyboard: host keys mapped onto the C64 keyboard matrix that CIA 1 scans
use vstd::prelude::*;
use crate::c64::cia::CIA;

verus! {

/// The host keys the emulator maps onto the C64 keyboard.
#[derive(PartialEq, Eq, Structural, Clone, Copy, Debug)]
pub enum HostKey {
    Key0, Key1, Key2, Key3, Key4, Key5, Key6, Key7, Key8, Key9,
    A, B, C, D, E, F, G, H, I, J, K, L, M, N, O, P, Q, R, S, T, U, V, W, X, Y, Z,
    F1, F2, F3, F4, F5, F6, F7, F8,
    Down, Up, Right, Left,
    Space, Comma, Period, Slash, Enter, Backspace, Backquote, LeftShift, RightShift, Escape,
    Minus, Equal, Insert, Home, LeftBracket, RightBracket, Delete, Semicolon, Apostrophe,
    Backslash, Tab, LeftCtrl,
}

/// A C64 key code: matrix row (bits 3-5) and column (bits 0-2); bit 7 asks for the
/// left shift key to be held with it.
pub open spec fn c64_code(row: u8, col: u8, shifted: bool) -> u8 {
    (row * 8 + col + (if shifted { 0x80int } else { 0 })) as u8
}

/// The C64 key of a host key. The cursor up and left keys and F2, F4, F6, F8 are the
/// shifted cursor down and right keys and F1, F3, F5, F7.
pub open spec fn spec_keycode(k: HostKey) -> u8 {
    match k {
        HostKey::Key0 => c64_code(4, 3, false),
        HostKey::Key1 => c64_code(7, 0, false),
        HostKey::Key2 => c64_code(7, 3, false),
        HostKey::Key3 => c64_code(1, 0, false),
        HostKey::Key4 => c64_code(1, 3, false),
        HostKey::Key5 => c64_code(2, 0, false),
        HostKey::Key6 => c64_code(2, 3, false),
        HostKey::Key7 => c64_code(3, 0, false),
        HostKey::Key8 => c64_code(3, 3, false),
        HostKey::Key9 => c64_code(4, 0, false),
        HostKey::A => c64_code(1, 2, false),
        HostKey::B => c64_code(3, 4, false),
        HostKey::C => c64_code(2, 4, false),
        HostKey::D => c64_code(2, 2, false),
        HostKey::E => c64_code(1, 6, false),
        HostKey::F => c64_code(2, 5, false),
        HostKey::G => c64_code(3, 2, false),
        HostKey::H => c64_code(3, 5, false),
        HostKey::I => c64_code(4, 1, false),
        HostKey::J => c64_code(4, 2, false),
        HostKey::K => c64_code(4, 5, false),
        HostKey::L => c64_code(5, 2, false),
        HostKey::M => c64_code(4, 4, false),
        HostKey::N => c64_code(4, 7, false),
        HostKey::O => c64_code(4, 6, false),
        HostKey::P => c64_code(5, 1, false),
        HostKey::Q => c64_code(7, 6, false),
        HostKey::R => c64_code(2, 1, false),
        HostKey::S => c64_code(1, 5, false),
        HostKey::T => c64_code(2, 6, false),
        HostKey::U => c64_code(3, 6, false),
        HostKey::V => c64_code(3, 7, false),
        HostKey::W => c64_code(1, 1, false),
        HostKey::X => c64_code(2, 7, false),
        HostKey::Y => c64_code(3, 1, false),
        HostKey::Z => c64_code(1, 4, false),
        HostKey::F1 => c64_code(0, 4, false),
        HostKey::F2 => c64_code(0, 4, true),
        HostKey::F3 => c64_code(0, 5, false),
        HostKey::F4 => c64_code(0, 5, true),
        HostKey::F5 => c64_code(0, 6, false),
        HostKey::F6 => c64_code(0, 6, true),
        HostKey::F7 => c64_code(0, 3, false),
        HostKey::F8 => c64_code(0, 3, true),
        HostKey::Down => c64_code(0, 7, false),
        HostKey::Up => c64_code(0, 7, true),
        HostKey::Right => c64_code(0, 2, false),
        HostKey::Left => c64_code(0, 2, true),
        HostKey::Space => c64_code(7, 4, false),
        HostKey::Comma => c64_code(5, 7, false),
        HostKey::Period => c64_code(5, 4, false),
        HostKey::Slash => c64_code(6, 7, false),
        HostKey::Enter => c64_code(0, 1, false),
        HostKey::Backspace => c64_code(0, 0, false),
        HostKey::Backquote => c64_code(7, 1, false),
        HostKey::LeftShift => c64_code(1, 7, false),
        HostKey::RightShift => c64_code(6, 4, false),
        HostKey::Escape => c64_code(7, 7, false),
        HostKey::Minus => c64_code(5, 0, false),
        HostKey::Equal => c64_code(5, 3, false),
        HostKey::Insert => c64_code(6, 0, false),
        HostKey::Home => c64_code(6, 3, false),
        HostKey::LeftBracket => c64_code(5, 6, false),
        HostKey::RightBracket => c64_code(6, 1, false),
        HostKey::Delete => c64_code(6, 6, false),
        HostKey::Semicolon => c64_code(5, 5, false),
        HostKey::Apostrophe => c64_code(6, 2, false),
        HostKey::Backslash => c64_code(6, 5, false),
        HostKey::Tab => c64_code(7, 2, false),
        HostKey::LeftCtrl => c64_code(7, 5, false),
    }
}

/// The matrix row of a key code.
pub open spec fn code_row(code: u8) -> u8 {
    ((code / 8) % 8) as u8
}

/// The matrix column of a key code.
pub open spec fn code_col(code: u8) -> u8 {
    (code % 8) as u8
}

/// Whether a key code asks for the shift key.
pub open spec fn code_shifted(code: u8) -> bool {
    code >= 0x80
}

/// The keyboard matrices (by row, by column) with a key pressed: its bits clear, and
/// for a shifted key the left shift key's bits too.
pub open spec fn matrices_pressed(km: Seq<u8>, rm: Seq<u8>, code: u8) -> (Seq<u8>, Seq<u8>) {
    let r = code_row(code);
    let c = code_col(code);
    let km1 = if code_shifted(code) { km.update(6, km[6] & 0xEF) } else { km };
    let rm1 = if code_shifted(code) { rm.update(4, rm[4] & 0xBF) } else { rm };
    (km1.update(r as int, km1[r as int] & !(1u8 << c)), rm1.update(c as int, rm1[c as int] & !(1u8 << r)))
}

/// The keyboard matrices with a key released: its bits set, and for a shifted key the
/// left shift key's bits too.
pub open spec fn matrices_released(km: Seq<u8>, rm: Seq<u8>, code: u8) -> (Seq<u8>, Seq<u8>) {
    let r = code_row(code);
    let c = code_col(code);
    let km1 = if code_shifted(code) { km.update(6, km[6] | 0x10) } else { km };
    let rm1 = if code_shifted(code) { rm.update(4, rm[4] | 0x40) } else { rm };
    (km1.update(r as int, km1[r as int] | (1u8 << c)), rm1.update(c as int, rm1[c as int] | (1u8 << r)))
}

/// The host keyboard state: which C64 key codes are held down.
pub struct Keyboard {
    pub pressed_keys: [bool; 256],
}

impl Keyboard {
    /// A keyboard with no key held.
    pub fn new() -> (k: Keyboard)
        ensures
            forall|i: int| 0 <= i < 256 ==> !k.pressed_keys[i],
    {
        Keyboard { pressed_keys: [false; 256] }
    }

    /// The C64 key code of a host key.
    pub fn keycode_to_c64(&self, keycode: HostKey) -> (code: u8)
        ensures
            code == spec_keycode(keycode),
    {
        let (row, col, shifted): (u8, u8, bool) = match keycode {
            HostKey::Key0 => (4, 3, false),
            HostKey::Key1 => (7, 0, false),
            HostKey::Key2 => (7, 3, false),
            HostKey::Key3 => (1, 0, false),
            HostKey::Key4 => (1, 3, false),
            HostKey::Key5 => (2, 0, false),
            HostKey::Key6 => (2, 3, false),
            HostKey::Key7 => (3, 0, false),
            HostKey::Key8 => (3, 3, false),
            HostKey::Key9 => (4, 0, false),
            HostKey::A => (1, 2, false),
            HostKey::B => (3, 4, false),
            HostKey::C => (2, 4, false),
            HostKey::D => (2, 2, false),
            HostKey::E => (1, 6, false),
            HostKey::F => (2, 5, false),
            HostKey::G => (3, 2, false),
            HostKey::H => (3, 5, false),
            HostKey::I => (4, 1, false),
            HostKey::J => (4, 2, false),
            HostKey::K => (4, 5, false),
            HostKey::L => (5, 2, false),
            HostKey::M => (4, 4, false),
            HostKey::N => (4, 7, false),
            HostKey::O => (4, 6, false),
            HostKey::P => (5, 1, false),
            HostKey::Q => (7, 6, false),
            HostKey::R => (2, 1, false),
            HostKey::S => (1, 5, false),
            HostKey::T => (2, 6, false),
            HostKey::U => (3, 6, false),
            HostKey::V => (3, 7, false),
            HostKey::W => (1, 1, false),
            HostKey::X => (2, 7, false),
            HostKey::Y => (3, 1, false),
            HostKey::Z => (1, 4, false),
            HostKey::F1 => (0, 4, false),
            HostKey::F2 => (0, 4, true),
            HostKey::F3 => (0, 5, false),
            HostKey::F4 => (0, 5, true),
            HostKey::F5 => (0, 6, false),
            HostKey::F6 => (0, 6, true),
            HostKey::F7 => (0, 3, false),
            HostKey::F8 => (0, 3, true),
            HostKey::Down => (0, 7, false),
            HostKey::Up => (0, 7, true),
            HostKey::Right => (0, 2, false),
            HostKey::Left => (0, 2, true),
            HostKey::Space => (7, 4, false),
            HostKey::Comma => (5, 7, false),
            HostKey::Period => (5, 4, false),
            HostKey::Slash => (6, 7, false),
            HostKey::Enter => (0, 1, false),
            HostKey::Backspace => (0, 0, false),
            HostKey::Backquote => (7, 1, false),
            HostKey::LeftShift => (1, 7, false),
            HostKey::RightShift => (6, 4, false),
            HostKey::Escape => (7, 7, false),
            HostKey::Minus => (5, 0, false),
            HostKey::Equal => (5, 3, false),
            HostKey::Insert => (6, 0, false),
            HostKey::Home => (6, 3, false),
            HostKey::LeftBracket => (5, 6, false),
            HostKey::RightBracket => (6, 1, false),
            HostKey::Delete => (6, 6, false),
            HostKey::Semicolon => (5, 5, false),
            HostKey::Apostrophe => (6, 2, false),
            HostKey::Backslash => (6, 5, false),
            HostKey::Tab => (7, 2, false),
            HostKey::LeftCtrl => (7, 5, false),
        };
        row * 8 + col + (if shifted { 0x80u8 } else { 0u8 })
    }

    /// Presses or releases a key, as the host keyboard reports it.
    pub fn process_key(&mut self, key_pressed: bool, keycode: HostKey, cia1: &mut CIA)
        ensures
            key_pressed ==> key_press_effect(*old(self), *old(cia1), *final(self), *final(cia1), spec_keycode(keycode)),
            !key_pressed ==> key_release_effect(*old(self), *old(cia1), *final(self), *final(cia1), spec_keycode(keycode)),
    {
        if key_pressed {
            self.on_key_press(keycode, cia1);
        } else {
            self.on_key_release(keycode, cia1);
        }
    }

    /// A key goes down: unless it is already held, its matrix bits clear (with the shift
    /// key's bits for a shifted key).
    pub fn on_key_press(&mut self, keycode: HostKey, cia1: &mut CIA)
        ensures
            key_press_effect(*old(self), *old(cia1), *final(self), *final(cia1), spec_keycode(keycode)),
    {
        let code = self.keycode_to_c64(keycode);
        if self.pressed_keys[code as usize] {
            return;
        }
        self.pressed_keys[code as usize] = true;
        let bit = code % 8;
        let byte = (code / 8) % 8;
        if code >= 0x80 {
            cia1.key_matrix[6] = cia1.key_matrix[6] & 0xEF;
            cia1.rev_matrix[4] = cia1.rev_matrix[4] & 0xBF;
        }
        cia1.key_matrix[byte as usize] = cia1.key_matrix[byte as usize] & !(1u8 << bit);
        cia1.rev_matrix[bit as usize] = cia1.rev_matrix[bit as usize] & !(1u8 << byte);
        proof {
            let (km, rm) = matrices_pressed(old(cia1).key_matrix@, old(cia1).rev_matrix@, code);
            assert(cia1.key_matrix@ =~= km);
            assert(cia1.rev_matrix@ =~= rm);
        }
    }

    /// A key goes up: unless it is not held, its matrix bits set (with the shift key's
    /// bits for a shifted key).
    pub fn on_key_release(&mut self, keycode: HostKey, cia1: &mut CIA)
        ensures
            key_release_effect(*old(self), *old(cia1), *final(self), *final(cia1), spec_keycode(keycode)),
    {
        let code = self.keycode_to_c64(keycode);
        if !self.pressed_keys[code as usize] {
            return;
        }
        self.pressed_keys[code as usize] = false;
        let bit = code % 8;
        let byte = (code / 8) % 8;
        if code >= 0x80 {
            cia1.key_matrix[6] = cia1.key_matrix[6] | 0x10;
            cia1.rev_matrix[4] = cia1.rev_matrix[4] | 0x40;
        }
        cia1.key_matrix[byte as usize] = cia1.key_matrix[byte as usize] | (1u8 << bit);
        cia1.rev_matrix[bit as usize] = cia1.rev_matrix[bit as usize] | (1u8 << byte);
        proof {
            let (km, rm) = matrices_released(old(cia1).key_matrix@, old(cia1).rev_matrix@, code);
            assert(cia1.key_matrix@ =~= km);
            assert(cia1.rev_matrix@ =~= rm);
        }
    }
}

/// A key press: a key already held changes nothing; otherwise it is marked held and the
/// CIA's matrices show it pressed; the rest of the CIA is unchanged.
pub open spec fn key_press_effect(ok: Keyboard, oc: CIA, nk: Keyboard, nc: CIA, code: u8) -> bool {
    if ok.pressed_keys[code as int] {
        nk == ok && nc == oc
    } else {
        let (km, rm) = matrices_pressed(oc.key_matrix@, oc.rev_matrix@, code);
        &&& nk.pressed_keys@ == ok.pressed_keys@.update(code as int, true)
        &&& nc.key_matrix@ == km && nc.rev_matrix@ == rm
        &&& nc.timer_a == oc.timer_a && nc.timer_b == oc.timer_b && nc.icr == oc.icr
    }
}

/// A key release: a key not held changes nothing; otherwise it is marked released and
/// the CIA's matrices show it released; the rest of the CIA is unchanged.
pub open spec fn key_release_effect(ok: Keyboard, oc: CIA, nk: Keyboard, nc: CIA, code: u8) -> bool {
    if !ok.pressed_keys[code as int] {
        nk == ok && nc == oc
    } else {
        let (km, rm) = matrices_released(oc.key_matrix@, oc.rev_matrix@, code);
        &&& nk.pressed_keys@ == ok.pressed_keys@.update(code as int, false)
        &&& nc.key_matrix@ == km && nc.rev_matrix@ == rm
        &&& nc.timer_a == oc.timer_a && nc.timer_b == oc.timer_b && nc.icr == oc.icr
    }
}

/// Whether a key shows released in the matrices: its row and column bits are set, and
/// the shift key's too for a shifted key.
pub open spec fn key_bits_released(c: CIA, code: u8) -> bool {
    let r = code_row(code);
    let col = code_col(code);
    &&& (c.key_matrix[r as int] & (1u8 << col)) != 0
    &&& (c.rev_matrix[col as int] & (1u8 << r)) != 0
    &&& code_shifted(code) ==> (c.key_matrix[6] & 0x10) != 0 && (c.rev_matrix[4] & 0x40) != 0
}

/// Clearing bits and setting them again gives the byte back when they were set.
proof fn lemma_clear_set(x: u8, a: u8, na: u8, sa: u8)
    requires
        a < 8,
        (sa == 0x10 && na == 0xEF) || (sa == 0x40 && na == 0xBF),
    ensures
        (x & (1u8 << a)) != 0 ==> ((x & !(1u8 << a)) | (1u8 << a)) == x,
        (x & sa) != 0 ==> ((x & na) | sa) == x,
        (x & (1u8 << a)) != 0 && (x & sa) != 0 ==> (((x & na) & !(1u8 << a)) | sa) | (1u8 << a) == x,
{
    assert(((x & (1u8 << a)) != 0 ==> ((x & !(1u8 << a)) | (1u8 << a)) == x)
        && ((x & sa) != 0 ==> ((x & na) | sa) == x)
        && ((x & (1u8 << a)) != 0 && (x & sa) != 0 ==> (((x & na) & !(1u8 << a)) | sa) | (1u8 << a) == x))
        by (bit_vector)
        requires
            a < 8,
            (sa == 0x10 && na == 0xEF) || (sa == 0x40 && na == 0xBF),
    ;
}

/// The legends of the C64 keyboard matrix, row by row (column 0 first): letters and
/// digits; the other keys show as a blank.
pub open spec fn c64_key_legend(row: int, col: int) -> char {
    let rows: Seq<Seq<char>> = seq![
        seq![' ', ' ', ' ', ' ', ' ', ' ', ' ', ' '],
        seq!['3', 'W', 'A', '4', 'Z', 'S', 'E', ' '],
        seq!['5', 'R', 'D', '6', 'C', 'F', 'T', 'X'],
        seq!['7', 'Y', 'G', '8', 'B', 'H', 'U', 'V'],
        seq!['9', 'I', 'J', '0', 'M', 'K', 'O', 'N'],
        seq![' ', 'P', 'L', ' ', ' ', ' ', ' ', ' '],
        seq![' ', ' ', ' ', ' ', ' ', ' ', ' ', ' '],
        seq!['1', ' ', ' ', '2', ' ', ' ', 'Q', ' '],
    ];
    rows[row][col]
}

/// The letter or digit a host key is labelled with, if any.
pub open spec fn host_key_legend(k: HostKey) -> Option<char> {
    match k {
        HostKey::Key0 => Some('0'), HostKey::Key1 => Some('1'), HostKey::Key2 => Some('2'),
        HostKey::Key3 => Some('3'), HostKey::Key4 => Some('4'), HostKey::Key5 => Some('5'),
        HostKey::Key6 => Some('6'), HostKey::Key7 => Some('7'), HostKey::Key8 => Some('8'),
        HostKey::Key9 => Some('9'),
        HostKey::A => Some('A'), HostKey::B => Some('B'), HostKey::C => Some('C'), HostKey::D => Some('D'),
        HostKey::E => Some('E'), HostKey::F => Some('F'), HostKey::G => Some('G'), HostKey::H => Some('H'),
        HostKey::I => Some('I'), HostKey::J => Some('J'), HostKey::K => Some('K'), HostKey::L => Some('L'),
        HostKey::M => Some('M'), HostKey::N => Some('N'), HostKey::O => Some('O'), HostKey::P => Some('P'),
        HostKey::Q => Some('Q'), HostKey::R => Some('R'), HostKey::S => Some('S'), HostKey::T => Some('T'),
        HostKey::U => Some('U'), HostKey::V => Some('V'), HostKey::W => Some('W'), HostKey::X => Some('X'),
        HostKey::Y => Some('Y'), HostKey::Z => Some('Z'),
        _ => None,
    }
}

/// Law: a host letter or digit key presses the C64 key with the same legend, unshifted:
/// the matrix position its code selects carries that letter or digit.
pub proof fn lemma_letter_keys_match_legends(k: HostKey)
    requires
        host_key_legend(k) is Some,
    ensures
        ({
            let code = spec_keycode(k);
            &&& !code_shifted(code)
            &&& c64_key_legend(code_row(code) as int, code_col(code) as int) == host_key_legend(k)->0
        }),
{
}

/// Law: distinct host letter and digit keys press distinct C64 keys.
pub proof fn lemma_letter_keys_distinct(k1: HostKey, k2: HostKey)
    requires
        host_key_legend(k1) is Some,
        host_key_legend(k2) is Some,
        k1 != k2,
    ensures
        spec_keycode(k1) != spec_keycode(k2),
{
    lemma_letter_keys_match_legends(k1);
    lemma_letter_keys_match_legends(k2);
}

/// Law: distinct host keys press distinct C64 keys (or the same key, once with and once
/// without shift), so no two host keys can be confused.
#[verifier::rlimit(40)]
pub proof fn lemma_host_keys_distinct(k1: HostKey, k2: HostKey)
    requires
        k1 != k2,
    ensures
        spec_keycode(k1) != spec_keycode(k2),
{
}

/// Law: releasing a key right after pressing it gives back the keyboard state and the
/// CIA's keyboard matrices, when the key was not held and showed released.
pub proof fn lemma_release_undoes_press(k: Keyboard, c: CIA, key: HostKey, k1: Keyboard, c1: CIA,
    k2: Keyboard, c2: CIA)
    requires
        !k.pressed_keys[spec_keycode(key) as int],
        key_bits_released(c, spec_keycode(key)),
        key_press_effect(k, c, k1, c1, spec_keycode(key)),
        key_release_effect(k1, c1, k2, c2, spec_keycode(key)),
    ensures
        k2.pressed_keys@ == k.pressed_keys@,
        c2.key_matrix@ == c.key_matrix@,
        c2.rev_matrix@ == c.rev_matrix@,
        c2.timer_a == c.timer_a && c2.timer_b == c.timer_b && c2.icr == c.icr,
{
    let code = spec_keycode(key);
    let r = code_row(code);
    let col = code_col(code);
    assert(r < 8 && col < 8);
    assert(k2.pressed_keys@ =~= k.pressed_keys@);
    lemma_clear_set(c.key_matrix[r as int], col, 0xEF, 0x10);
    lemma_clear_set(c.rev_matrix[col as int], r, 0xBF, 0x40);
    lemma_clear_set(c.key_matrix[6], col, 0xEF, 0x10);
    lemma_clear_set(c.rev_matrix[4], r, 0xBF, 0x40);
    if code_shifted(code) {
        assert(r == 0);
        assert(c2.key_matrix@ =~= c.key_matrix@);
        if col == 4 {
            assert(c2.rev_matrix@ =~= c.rev_matrix@);
        } else {
            assert(c2.rev_matrix@ =~= c.rev_matrix@);
        }
    } else {
        assert(c2.key_matrix@ =~= c.key_matrix@);
        assert(c2.rev_matrix@ =~= c.rev_matrix@);
    }
}

} // verus!
