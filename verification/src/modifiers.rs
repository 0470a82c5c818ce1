//! Modifier state of an ibus key event: the GDK-style mask of `ProcessKeyEvent`
//! (`ibustypes.h`).

use vstd::prelude::*;

verus! {

pub const SHIFT_MASK: u32 = 0x1;
pub const LOCK_MASK: u32 = 0x2;
pub const CONTROL_MASK: u32 = 0x4;
pub const MOD1_MASK: u32 = 0x8;
pub const MOD4_MASK: u32 = 0x40;
pub const MOD5_MASK: u32 = 0x80;
pub const SUPER_MASK: u32 = 0x400_0000;
pub const HYPER_MASK: u32 = 0x800_0000;
pub const META_MASK: u32 = 0x1000_0000;
pub const RELEASE_MASK: u32 = 0x4000_0000;

/// Whether `mask` is set in `state`.
pub open spec fn has_mask(state: u32, mask: u32) -> bool {
    state & mask != 0
}

/// Modifiers that mark a key press as a shortcut rather than typing:
/// Control, Mod1 (Alt), Mod4, Super, Meta, Hyper.
pub open spec fn special(state: u32) -> bool {
    has_mask(state, CONTROL_MASK) || has_mask(state, MOD1_MASK) || has_mask(state, MOD4_MASK)
        || has_mask(state, SUPER_MASK) || has_mask(state, META_MASK) || has_mask(state, HYPER_MASK)
}

/// The modifier mask of one key event.
#[derive(Debug, Clone, Copy, PartialEq, Eq, Structural)]
pub struct ModifierState {
    pub raw: u32,
}

impl ModifierState {
    pub fn new_with_raw_value(raw: u32) -> (s: Self)
        ensures
            s.raw == raw,
    {
        ModifierState { raw }
    }

    pub fn raw_value(self) -> (r: u32)
        ensures
            r == self.raw,
    {
        self.raw
    }

    /// Shift is held.
    pub fn shift(self) -> (r: bool)
        ensures
            r == has_mask(self.raw, SHIFT_MASK),
    {
        self.raw & SHIFT_MASK != 0
    }

    /// Caps Lock is on.
    pub fn lock(self) -> (r: bool)
        ensures
            r == has_mask(self.raw, LOCK_MASK),
    {
        self.raw & LOCK_MASK != 0
    }

    /// Control is held.
    pub fn control(self) -> (r: bool)
        ensures
            r == has_mask(self.raw, CONTROL_MASK),
    {
        self.raw & CONTROL_MASK != 0
    }

    /// Mod1 (usually Alt) is held.
    pub fn mod1(self) -> (r: bool)
        ensures
            r == has_mask(self.raw, MOD1_MASK),
    {
        self.raw & MOD1_MASK != 0
    }

    /// Mod4 (usually Super / Hyper) is held.
    pub fn mod4(self) -> (r: bool)
        ensures
            r == has_mask(self.raw, MOD4_MASK),
    {
        self.raw & MOD4_MASK != 0
    }

    /// Mod5 (ISO_Level3_Shift, AltGr) is held.
    pub fn mod5(self) -> (r: bool)
        ensures
            r == has_mask(self.raw, MOD5_MASK),
    {
        self.raw & MOD5_MASK != 0
    }

    /// Super is held.
    pub fn super_(self) -> (r: bool)
        ensures
            r == has_mask(self.raw, SUPER_MASK),
    {
        self.raw & SUPER_MASK != 0
    }

    /// Hyper is held.
    pub fn hyper(self) -> (r: bool)
        ensures
            r == has_mask(self.raw, HYPER_MASK),
    {
        self.raw & HYPER_MASK != 0
    }

    /// Meta is held.
    pub fn meta(self) -> (r: bool)
        ensures
            r == has_mask(self.raw, META_MASK),
    {
        self.raw & META_MASK != 0
    }

    /// The event is a key release.
    pub fn is_keyup(self) -> (r: bool)
        ensures
            r == has_mask(self.raw, RELEASE_MASK),
    {
        self.raw & RELEASE_MASK != 0
    }

    /// The event is a key press.
    pub fn is_keydown(self) -> (r: bool)
        ensures
            r == (has_mask(self.raw, RELEASE_MASK) == false),
    {
        !self.is_keyup()
    }

    /// A shortcut modifier is held (see [`special`]).
    pub fn has_special_modifiers(self) -> (r: bool)
        ensures
            r == special(self.raw),
    {
        self.control() || self.mod1() || self.mod4() || self.super_() || self.meta() || self.hyper()
    }
}

} // verus!
