use vstd::prelude::*;

verus! {

/// The CHIP-8 key bound to the keyboard key whose SDL scancode is `code`:
/// the left-hand 4x4 block `1 2 3 4 / Q W E R / A S D F / Z X C V` stands for
/// the hexadecimal keypad `1 2 3 C / 4 5 6 D / 7 8 9 E / A 0 B F`.
pub open spec fn key_for_scancode(code: i32) -> Option<u8> {
    if code == 30 { Some(0x1u8) }
    else if code == 31 { Some(0x2u8) }
    else if code == 32 { Some(0x3u8) }
    else if code == 33 { Some(0xCu8) }
    else if code == 20 { Some(0x4u8) }
    else if code == 26 { Some(0x5u8) }
    else if code == 8 { Some(0x6u8) }
    else if code == 21 { Some(0xDu8) }
    else if code == 4 { Some(0x7u8) }
    else if code == 22 { Some(0x8u8) }
    else if code == 7 { Some(0x9u8) }
    else if code == 9 { Some(0xEu8) }
    else if code == 29 { Some(0xAu8) }
    else if code == 27 { Some(0x0u8) }
    else if code == 6 { Some(0xBu8) }
    else if code == 25 { Some(0xFu8) }
    else { None }
}

/// Maps an SDL scancode number to the CHIP-8 key it stands for, if any.
pub fn scancode_to_hex(scancode: i32) -> (r: Option<u8>)
    ensures
        r == key_for_scancode(scancode),
        r matches Some(k) ==> k < 16,
{
    match scancode {
        30 => Some(0x1),
        31 => Some(0x2),
        32 => Some(0x3),
        33 => Some(0xC),
        20 => Some(0x4),
        26 => Some(0x5),
        8 => Some(0x6),
        21 => Some(0xD),
        4 => Some(0x7),
        22 => Some(0x8),
        7 => Some(0x9),
        9 => Some(0xE),
        29 => Some(0xA),
        27 => Some(0x0),
        6 => Some(0xB),
        25 => Some(0xF),
        _ => None,
    }
}

} // verus!
