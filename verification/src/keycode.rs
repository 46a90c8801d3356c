//! X11 keysym to macOS virtual keycode translation.
//!
//! The host framework reports keys as X11 keysyms, while the transformation
//! engine expects macOS virtual keycodes. The mapping is a fixed compatibility
//! table: the engine interprets codes positionally, so every entry must stay
//! bit-exact. Keys outside the table carry no linguistic meaning and are
//! reported as `None`, which callers treat as "pass through unchanged".

use vstd::prelude::*;

verus! {

/// The keysym → macOS virtual keycode table, as a mathematical function.
///
/// Upper- and lower-case variants of a letter map to the same code: case is
/// communicated separately through the modifier state, never through distinct
/// codes.
pub open spec fn keycode_of(keysym: u32) -> Option<u16> {
    // Letters (both cases map to the same code)
    if keysym == 0x061 || keysym == 0x041 {
        Some(0u16)  // a/A
    } else if keysym == 0x073 || keysym == 0x053 {
        Some(1u16)  // s/S
    } else if keysym == 0x064 || keysym == 0x044 {
        Some(2u16)  // d/D
    } else if keysym == 0x066 || keysym == 0x046 {
        Some(3u16)  // f/F
    } else if keysym == 0x068 || keysym == 0x048 {
        Some(4u16)  // h/H
    } else if keysym == 0x067 || keysym == 0x047 {
        Some(5u16)  // g/G
    } else if keysym == 0x07a || keysym == 0x05a {
        Some(6u16)  // z/Z
    } else if keysym == 0x078 || keysym == 0x058 {
        Some(7u16)  // x/X
    } else if keysym == 0x063 || keysym == 0x043 {
        Some(8u16)  // c/C
    } else if keysym == 0x076 || keysym == 0x056 {
        Some(9u16)  // v/V
    } else if keysym == 0x062 || keysym == 0x042 {
        Some(11u16)  // b/B
    } else if keysym == 0x071 || keysym == 0x051 {
        Some(12u16)  // q/Q
    } else if keysym == 0x077 || keysym == 0x057 {
        Some(13u16)  // w/W
    } else if keysym == 0x065 || keysym == 0x045 {
        Some(14u16)  // e/E
    } else if keysym == 0x072 || keysym == 0x052 {
        Some(15u16)  // r/R
    } else if keysym == 0x079 || keysym == 0x059 {
        Some(16u16)  // y/Y
    } else if keysym == 0x074 || keysym == 0x054 {
        Some(17u16)  // t/T
    } else if keysym == 0x06f || keysym == 0x04f {
        Some(31u16)  // o/O
    } else if keysym == 0x075 || keysym == 0x055 {
        Some(32u16)  // u/U
    } else if keysym == 0x069 || keysym == 0x049 {
        Some(34u16)  // i/I
    } else if keysym == 0x070 || keysym == 0x050 {
        Some(35u16)  // p/P
    } else if keysym == 0x06c || keysym == 0x04c {
        Some(37u16)  // l/L
    } else if keysym == 0x06a || keysym == 0x04a {
        Some(38u16)  // j/J
    } else if keysym == 0x06b || keysym == 0x04b {
        Some(40u16)  // k/K
    } else if keysym == 0x06e || keysym == 0x04e {
        Some(45u16)  // n/N
    } else if keysym == 0x06d || keysym == 0x04d {
        Some(46u16)  // m/M
    // Digits (used by the numeric tone shortcuts of one input method)
    } else if keysym == 0x031 {
        Some(18u16)  // 1
    } else if keysym == 0x032 {
        Some(19u16)  // 2
    } else if keysym == 0x033 {
        Some(20u16)  // 3
    } else if keysym == 0x034 {
        Some(21u16)  // 4
    } else if keysym == 0x035 {
        Some(23u16)  // 5
    } else if keysym == 0x036 {
        Some(22u16)  // 6
    } else if keysym == 0x037 {
        Some(26u16)  // 7
    } else if keysym == 0x038 {
        Some(28u16)  // 8
    } else if keysym == 0x039 {
        Some(25u16)  // 9
    } else if keysym == 0x030 {
        Some(29u16)  // 0
    // Control keys
    } else if keysym == 0x0020 {
        Some(49u16)  // Space
    } else if keysym == 0xFF08 {
        Some(51u16)  // BackSpace
    } else if keysym == 0xFF09 {
        Some(48u16)  // Tab
    } else if keysym == 0xFF0D {
        Some(36u16)  // Return
    } else if keysym == 0xFF8D {
        Some(76u16)  // KP_Enter
    } else if keysym == 0xFF1B {
        Some(53u16)  // Escape
    } else if keysym == 0xFF51 {
        Some(123u16)  // Left arrow
    } else if keysym == 0xFF53 {
        Some(124u16)  // Right arrow
    } else if keysym == 0xFF54 {
        Some(125u16)  // Down arrow
    } else if keysym == 0xFF52 {
        Some(126u16)  // Up arrow
    // Punctuation (US keyboard layout)
    } else if keysym == 0x02e {
        Some(47u16)  // . (period)
    } else if keysym == 0x02c {
        Some(43u16)  // , (comma)
    } else if keysym == 0x02f {
        Some(44u16)  // / (slash)
    } else if keysym == 0x03b {
        Some(41u16)  // ; (semicolon)
    } else if keysym == 0x027 {
        Some(39u16)  // ' (quote)
    } else if keysym == 0x05b {
        Some(33u16)  // [ (left bracket)
    } else if keysym == 0x05d {
        Some(30u16)  // ] (right bracket)
    } else if keysym == 0x05c {
        Some(42u16)  // \ (backslash)
    } else if keysym == 0x02d {
        Some(27u16)  // - (minus)
    } else if keysym == 0x03d {
        Some(24u16)  // = (equal)
    } else if keysym == 0x060 {
        Some(50u16)  // ` (grave)
    } else {
        None
    }
}

/// The eight dedicated modifier keysyms plus caps-lock. Such events carry no
/// character and must never reach the translator or the engine.
pub open spec fn is_modifier_keysym(keysym: u32) -> bool {
    ||| keysym == 0xFFE1  // Shift_L
    ||| keysym == 0xFFE2  // Shift_R
    ||| keysym == 0xFFE3  // Control_L
    ||| keysym == 0xFFE4  // Control_R
    ||| keysym == 0xFFE9  // Alt_L
    ||| keysym == 0xFFEA  // Alt_R
    ||| keysym == 0xFFEB  // Super_L
    ||| keysym == 0xFFEC  // Super_R
    ||| keysym == 0xFFE5  // Caps_Lock
}

/// The word-boundary keysyms: space, return, numpad enter, tab, escape and
/// the four arrow keys. Each of them ends a word in every supported
/// orthography, so the pipeline must clear the engine's pending buffer.
pub open spec fn is_boundary_keysym(keysym: u32) -> bool {
    ||| keysym == 0x0020  // Space
    ||| keysym == 0xFF0D  // Return
    ||| keysym == 0xFF8D  // KP_Enter
    ||| keysym == 0xFF09  // Tab
    ||| keysym == 0xFF1B  // Escape
    ||| (0xFF51 <= keysym && keysym <= 0xFF54)  // Arrow keys
}

/// Translate an X11 keysym to the macOS virtual keycode the transformation
/// engine understands, or `None` when the key is not relevant for Vietnamese
/// input and should pass through unchanged.
pub fn keysym_to_macos_keycode(keysym: u32) -> (r: Option<u16>)
    ensures
        r == keycode_of(keysym),
{
    if keysym == 0x061 || keysym == 0x041 {
        Some(0)
    } else if keysym == 0x073 || keysym == 0x053 {
        Some(1)
    } else if keysym == 0x064 || keysym == 0x044 {
        Some(2)
    } else if keysym == 0x066 || keysym == 0x046 {
        Some(3)
    } else if keysym == 0x068 || keysym == 0x048 {
        Some(4)
    } else if keysym == 0x067 || keysym == 0x047 {
        Some(5)
    } else if keysym == 0x07a || keysym == 0x05a {
        Some(6)
    } else if keysym == 0x078 || keysym == 0x058 {
        Some(7)
    } else if keysym == 0x063 || keysym == 0x043 {
        Some(8)
    } else if keysym == 0x076 || keysym == 0x056 {
        Some(9)
    } else if keysym == 0x062 || keysym == 0x042 {
        Some(11)
    } else if keysym == 0x071 || keysym == 0x051 {
        Some(12)
    } else if keysym == 0x077 || keysym == 0x057 {
        Some(13)
    } else if keysym == 0x065 || keysym == 0x045 {
        Some(14)
    } else if keysym == 0x072 || keysym == 0x052 {
        Some(15)
    } else if keysym == 0x079 || keysym == 0x059 {
        Some(16)
    } else if keysym == 0x074 || keysym == 0x054 {
        Some(17)
    } else if keysym == 0x06f || keysym == 0x04f {
        Some(31)
    } else if keysym == 0x075 || keysym == 0x055 {
        Some(32)
    } else if keysym == 0x069 || keysym == 0x049 {
        Some(34)
    } else if keysym == 0x070 || keysym == 0x050 {
        Some(35)
    } else if keysym == 0x06c || keysym == 0x04c {
        Some(37)
    } else if keysym == 0x06a || keysym == 0x04a {
        Some(38)
    } else if keysym == 0x06b || keysym == 0x04b {
        Some(40)
    } else if keysym == 0x06e || keysym == 0x04e {
        Some(45)
    } else if keysym == 0x06d || keysym == 0x04d {
        Some(46)
    } else if keysym == 0x031 {
        Some(18)
    } else if keysym == 0x032 {
        Some(19)
    } else if keysym == 0x033 {
        Some(20)
    } else if keysym == 0x034 {
        Some(21)
    } else if keysym == 0x035 {
        Some(23)
    } else if keysym == 0x036 {
        Some(22)
    } else if keysym == 0x037 {
        Some(26)
    } else if keysym == 0x038 {
        Some(28)
    } else if keysym == 0x039 {
        Some(25)
    } else if keysym == 0x030 {
        Some(29)
    } else if keysym == 0x0020 {
        Some(49)
    } else if keysym == 0xFF08 {
        Some(51)
    } else if keysym == 0xFF09 {
        Some(48)
    } else if keysym == 0xFF0D {
        Some(36)
    } else if keysym == 0xFF8D {
        Some(76)
    } else if keysym == 0xFF1B {
        Some(53)
    } else if keysym == 0xFF51 {
        Some(123)
    } else if keysym == 0xFF53 {
        Some(124)
    } else if keysym == 0xFF54 {
        Some(125)
    } else if keysym == 0xFF52 {
        Some(126)
    } else if keysym == 0x02e {
        Some(47)
    } else if keysym == 0x02c {
        Some(43)
    } else if keysym == 0x02f {
        Some(44)
    } else if keysym == 0x03b {
        Some(41)
    } else if keysym == 0x027 {
        Some(39)
    } else if keysym == 0x05b {
        Some(33)
    } else if keysym == 0x05d {
        Some(30)
    } else if keysym == 0x05c {
        Some(42)
    } else if keysym == 0x02d {
        Some(27)
    } else if keysym == 0x03d {
        Some(24)
    } else if keysym == 0x060 {
        Some(50)
    } else {
        None
    }
}

/// True exactly for the modifier keysyms (shift, control, alt, super,
/// caps-lock). Those keys produce no character.
pub fn is_modifier_key(keysym: u32) -> (r: bool)
    ensures
        r == is_modifier_keysym(keysym),
{
    keysym == 0xFFE1 || keysym == 0xFFE2 || keysym == 0xFFE3 || keysym == 0xFFE4
        || keysym == 0xFFE9 || keysym == 0xFFEA || keysym == 0xFFEB || keysym == 0xFFEC
        || keysym == 0xFFE5
}

/// True exactly for the word-boundary keysyms, on which the engine's pending
/// buffer must be cleared.
pub fn is_buffer_clear_key(keysym: u32) -> (r: bool)
    ensures
        r == is_boundary_keysym(keysym),
{
    keysym == 0x0020 || keysym == 0xFF0D || keysym == 0xFF8D || keysym == 0xFF09
        || keysym == 0xFF1B || (0xFF51 <= keysym && keysym <= 0xFF54)
}

/// True for the keysym of an ASCII lower-case letter.
pub open spec fn is_lowercase_letter_keysym(keysym: u32) -> bool {
    0x061 <= keysym <= 0x07a
}

/// Case folding of the translation table: an upper-case letter keysym sits
/// 0x20 below its lower-case partner, both are mapped, and both map to the
/// same keycode. Case reaches the engine through the modifier state alone.
pub proof fn lemma_letter_pairs_share_keycode(lower: u32)
    requires
        is_lowercase_letter_keysym(lower),
    ensures
        keycode_of(lower) is Some,
        keycode_of(lower) == keycode_of((lower - 0x20) as u32),
{
}

} // verus!
