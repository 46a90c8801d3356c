//! Decoding of the framework's modifier bitmask.
//!
//! The layout is fixed by the inbound contract: bit 0 = shift, bit 1 =
//! caps-lock, bit 2 = control, bit 3 = alt. Two derived flags drive the
//! pipeline: a character is upper-case exactly when shift and caps-lock
//! disagree, and the transformation is bypassed whenever control or alt is
//! held (so keyboard shortcuts are never rewritten).

use vstd::prelude::*;

verus! {

pub const SHIFT_MASK: u32 = 0x1;

pub const CAPS_LOCK_MASK: u32 = 0x2;

pub const CONTROL_MASK: u32 = 0x4;

pub const ALT_MASK: u32 = 0x8;

/// The modifier flags of one key event, decoded from the bitmask.
#[derive(Clone, Copy, Debug, PartialEq, Eq, Structural)]
pub struct ModifierState {
    pub shift: bool,
    pub caps_lock: bool,
    pub control: bool,
    pub alt: bool,
}

impl ModifierState {
    /// The character is upper-case exactly when shift and caps-lock disagree.
    pub open spec fn spec_effective_uppercase(self) -> bool {
        self.shift != self.caps_lock
    }

    /// The transformation is bypassed while control or alt is held.
    pub open spec fn spec_bypass_transformation(self) -> bool {
        self.control || self.alt
    }

    /// Whether the incoming character is to be treated as upper-case.
    pub fn effective_uppercase(&self) -> (r: bool)
        ensures
            r == self.spec_effective_uppercase(),
    {
        self.shift != self.caps_lock
    }

    /// Whether the transformation engine must leave this key untouched.
    pub fn bypass_transformation(&self) -> (r: bool)
        ensures
            r == self.spec_bypass_transformation(),
    {
        self.control || self.alt
    }
}

/// What `decode_modifiers` returns, as a mathematical function of the bits.
pub open spec fn spec_decode_modifiers(bits: u32) -> ModifierState {
    ModifierState {
        shift: bits & SHIFT_MASK != 0,
        caps_lock: bits & CAPS_LOCK_MASK != 0,
        control: bits & CONTROL_MASK != 0,
        alt: bits & ALT_MASK != 0,
    }
}

/// Decode the framework's modifier bitmask into its four flags.
pub fn decode_modifiers(bits: u32) -> (r: ModifierState)
    ensures
        r == spec_decode_modifiers(bits),
{
    ModifierState {
        shift: bits & SHIFT_MASK != 0,
        caps_lock: bits & CAPS_LOCK_MASK != 0,
        control: bits & CONTROL_MASK != 0,
        alt: bits & ALT_MASK != 0,
    }
}

/// For every bitmask, the decoded state relates its derived flags to its
/// plain flags by exactly the two stated equations: effective upper-case is
/// shift XOR caps-lock, and bypass is control OR alt.
pub proof fn lemma_decode_modifiers_derived_flags(bits: u32)
    ensures
        spec_decode_modifiers(bits).spec_effective_uppercase() == ((bits & SHIFT_MASK != 0) != (
        bits & CAPS_LOCK_MASK != 0)),
        spec_decode_modifiers(bits).spec_bypass_transformation() == ((bits & CONTROL_MASK != 0) || (
        bits & ALT_MASK != 0)),
{
}

} // verus!
