//! Key presses, as the engine takes them, and their decoding from the bytes
//! that a terminal sends.

use vstd::prelude::*;

verus! {

/// A key press.
#[derive(Clone, Copy, PartialEq, Eq, Debug, Structural)]
pub enum KeyCode {
    Up,
    Down,
    Left,
    Right,
    Esc,
    Enter,
    Backspace,
    Delete,
    Tab,
    Char(char),
}

/// The key that a terminal reports with the bytes `data`: the escape
/// sequences of the arrow keys and of delete, the control bytes of escape,
/// interrupt, enter, backspace and tab, and for anything else the character
/// of the first byte.
pub open spec fn decoded(data: Seq<u8>) -> KeyCode {
    if data =~= seq![0x1bu8, 0x5bu8, 0x41u8] {
        KeyCode::Up
    } else if data =~= seq![0x1bu8, 0x5bu8, 0x42u8] {
        KeyCode::Down
    } else if data =~= seq![0x1bu8, 0x5bu8, 0x43u8] {
        KeyCode::Right
    } else if data =~= seq![0x1bu8, 0x5bu8, 0x44u8] {
        KeyCode::Left
    } else if data =~= seq![0x03u8] {
        KeyCode::Esc
    } else if data =~= seq![0x1bu8] {
        KeyCode::Esc
    } else if data =~= seq![0x0du8] {
        KeyCode::Enter
    } else if data =~= seq![0x7fu8] {
        KeyCode::Backspace
    } else if data =~= seq![0x1bu8, 0x5bu8, 0x33u8, 0x7eu8] {
        KeyCode::Delete
    } else if data =~= seq![0x09u8] {
        KeyCode::Tab
    } else {
        KeyCode::Char(data[0] as char)
    }
}

/// Decodes the bytes of one key press.
pub fn convert_data_to_key_code(data: &[u8]) -> (r: KeyCode)
    requires
        data@.len() > 0,
    ensures
        r == decoded(data@),
{
    let n: usize = data.len();
    let first: u8 = data[0];
    if n == 1 {
        if first == 0x03 || first == 0x1b {
            KeyCode::Esc
        } else if first == 0x0d {
            KeyCode::Enter
        } else if first == 0x7f {
            KeyCode::Backspace
        } else if first == 0x09 {
            KeyCode::Tab
        } else {
            KeyCode::Char(first as char)
        }
    } else if n == 3 && first == 0x1b && data[1] == 0x5b {
        let last: u8 = data[2];
        if last == 0x41 {
            KeyCode::Up
        } else if last == 0x42 {
            KeyCode::Down
        } else if last == 0x43 {
            KeyCode::Right
        } else if last == 0x44 {
            KeyCode::Left
        } else {
            KeyCode::Char(first as char)
        }
    } else if n == 4 && first == 0x1b && data[1] == 0x5b && data[2] == 0x33 && data[3] == 0x7e {
        KeyCode::Delete
    } else {
        KeyCode::Char(first as char)
    }
}

} // verus!
