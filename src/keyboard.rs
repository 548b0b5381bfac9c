use vstd::prelude::*;

verus! {

/// The character that the keyboard layer sends for the enter key.
pub const ENTER_KEY: char = '\u{10602}';

/// The character that the keyboard layer sends for the backspace key.
pub const BACKSPACE_KEY: char = '\u{10601}';

/// A decoded keyboard event: a printable key, or a modifier going down or up.
#[derive(Clone, Copy, Debug, PartialEq, Eq)]
pub enum KeyChar {
    Press(char),
    SpecialPress(&'static str),
    SpecialRelease(&'static str),
}

/// The keys of scan code set 1 that the system understands.
pub open spec fn scancode_key(scancode: u8) -> Option<KeyChar> {
    match scancode {
        0x02u8 => Some(KeyChar::Press('1')),
        0x03u8 => Some(KeyChar::Press('2')),
        0x04u8 => Some(KeyChar::Press('3')),
        0x05u8 => Some(KeyChar::Press('4')),
        0x06u8 => Some(KeyChar::Press('5')),
        0x07u8 => Some(KeyChar::Press('6')),
        0x08u8 => Some(KeyChar::Press('7')),
        0x09u8 => Some(KeyChar::Press('8')),
        0x0Au8 => Some(KeyChar::Press('9')),
        0x0Bu8 => Some(KeyChar::Press('0')),
        0x10u8 => Some(KeyChar::Press('q')),
        0x11u8 => Some(KeyChar::Press('w')),
        0x12u8 => Some(KeyChar::Press('e')),
        0x13u8 => Some(KeyChar::Press('r')),
        0x14u8 => Some(KeyChar::Press('t')),
        0x15u8 => Some(KeyChar::Press('y')),
        0x16u8 => Some(KeyChar::Press('u')),
        0x17u8 => Some(KeyChar::Press('i')),
        0x18u8 => Some(KeyChar::Press('o')),
        0x19u8 => Some(KeyChar::Press('p')),
        0x1Eu8 => Some(KeyChar::Press('a')),
        0x1Fu8 => Some(KeyChar::Press('s')),
        0x20u8 => Some(KeyChar::Press('d')),
        0x21u8 => Some(KeyChar::Press('f')),
        0x22u8 => Some(KeyChar::Press('g')),
        0x23u8 => Some(KeyChar::Press('h')),
        0x24u8 => Some(KeyChar::Press('j')),
        0x25u8 => Some(KeyChar::Press('k')),
        0x26u8 => Some(KeyChar::Press('l')),
        0x2Cu8 => Some(KeyChar::Press('z')),
        0x2Du8 => Some(KeyChar::Press('x')),
        0x2Eu8 => Some(KeyChar::Press('c')),
        0x2Fu8 => Some(KeyChar::Press('v')),
        0x30u8 => Some(KeyChar::Press('b')),
        0x31u8 => Some(KeyChar::Press('n')),
        0x32u8 => Some(KeyChar::Press('m')),
        0x38u8 => Some(KeyChar::SpecialPress("alt")),
        0xB8u8 => Some(KeyChar::SpecialRelease("alt")),
        _ => None,
    }
}

/// Decodes one scan code; codes the system does not use give `None`.
pub fn scancode_to_char(scancode: u8) -> (r: Option<KeyChar>)
    ensures
        r == scancode_key(scancode),
{
    match scancode {
        0x02 => Some(KeyChar::Press('1')),
        0x03 => Some(KeyChar::Press('2')),
        0x04 => Some(KeyChar::Press('3')),
        0x05 => Some(KeyChar::Press('4')),
        0x06 => Some(KeyChar::Press('5')),
        0x07 => Some(KeyChar::Press('6')),
        0x08 => Some(KeyChar::Press('7')),
        0x09 => Some(KeyChar::Press('8')),
        0x0A => Some(KeyChar::Press('9')),
        0x0B => Some(KeyChar::Press('0')),
        0x10 => Some(KeyChar::Press('q')),
        0x11 => Some(KeyChar::Press('w')),
        0x12 => Some(KeyChar::Press('e')),
        0x13 => Some(KeyChar::Press('r')),
        0x14 => Some(KeyChar::Press('t')),
        0x15 => Some(KeyChar::Press('y')),
        0x16 => Some(KeyChar::Press('u')),
        0x17 => Some(KeyChar::Press('i')),
        0x18 => Some(KeyChar::Press('o')),
        0x19 => Some(KeyChar::Press('p')),
        0x1E => Some(KeyChar::Press('a')),
        0x1F => Some(KeyChar::Press('s')),
        0x20 => Some(KeyChar::Press('d')),
        0x21 => Some(KeyChar::Press('f')),
        0x22 => Some(KeyChar::Press('g')),
        0x23 => Some(KeyChar::Press('h')),
        0x24 => Some(KeyChar::Press('j')),
        0x25 => Some(KeyChar::Press('k')),
        0x26 => Some(KeyChar::Press('l')),
        0x2C => Some(KeyChar::Press('z')),
        0x2D => Some(KeyChar::Press('x')),
        0x2E => Some(KeyChar::Press('c')),
        0x2F => Some(KeyChar::Press('v')),
        0x30 => Some(KeyChar::Press('b')),
        0x31 => Some(KeyChar::Press('n')),
        0x32 => Some(KeyChar::Press('m')),
        0x38 => Some(KeyChar::SpecialPress("alt")),
        0xB8 => Some(KeyChar::SpecialRelease("alt")),
        _ => None,
    }
}

/// The character that a key gives with "shift" held: the upper case of a
/// lower-case ASCII letter, the symbol above a digit on a US layout, and
/// any other character unchanged.
pub open spec fn shifted(c: char) -> char {
    if 'a' <= c && c <= 'z' {
        ((c as u32 - 32) as u8) as char
    } else {
        match c {
            '1' => '!',
            '2' => '@',
            '3' => '#',
            '4' => '$',
            '5' => '%',
            '6' => '^',
            '7' => '&',
            '8' => '*',
            '9' => '(',
            '0' => ')',
            _ => c,
        }
    }
}

/// The character typed when `c` is pressed with "shift" held.
pub fn uppercase_or_special(c: char) -> (r: char)
    ensures
        r == shifted(c),
{
    if 'a' <= c && c <= 'z' {
        ((c as u32 - 32) as u8) as char
    } else {
        match c {
            '1' => '!',
            '2' => '@',
            '3' => '#',
            '4' => '$',
            '5' => '%',
            '6' => '^',
            '7' => '&',
            '8' => '*',
            '9' => '(',
            '0' => ')',
            _ => c,
        }
    }
}

} // verus!
