//! The parts of the user configuration (`config.toml`) that the key handling reads.

use vstd::prelude::*;

verus! {

/// The key whose single tap switches between Chinese and English.
#[derive(Debug, Clone, Copy, PartialEq, Eq, Structural)]
pub enum SwitchKey {
    Shift,
    Control,
    /// Ctrl+Space; GNOME binds it to its own input source switch.
    CtrlSpace,
    /// No switch key (`none`).
    Off,
}

impl Default for SwitchKey {
    fn default() -> (k: Self)
        ensures
            k == SwitchKey::Shift,
    {
        SwitchKey::Shift
    }
}

/// A modifier combination as the configuration writes it
/// (`option` is Alt, `command` is Super).
#[derive(Debug, Clone, Copy, PartialEq, Eq, Structural)]
pub struct Modifiers {
    pub shift: bool,
    pub control: bool,
    pub option: bool,
    pub command: bool,
}

impl Modifiers {
    /// Shift alone.
    pub fn shift_only() -> (m: Self)
        ensures
            m == (Modifiers { shift: true, control: false, option: false, command: false }),
    {
        Modifiers { shift: true, control: false, option: false, command: false }
    }

    /// Control alone.
    pub fn control_only() -> (m: Self)
        ensures
            m == (Modifiers { shift: false, control: true, option: false, command: false }),
    {
        Modifiers { shift: false, control: true, option: false, command: false }
    }
}

/// Direction of the candidate table.
#[derive(Debug, Clone, Copy, PartialEq, Eq, Structural)]
pub enum LayoutMode {
    Horizontal,
    Vertical,
}

/// Input scheme; `S` names the shuangpin layouts.
#[derive(Debug)]
pub enum Scheme<S> {
    Pinyin,
    Shuangpin(S),
    /// A scheme this shell does not support (zhuyin, shape-based codes).
    Other,
}

/// What the host takes from the configuration.
#[derive(Debug)]
pub struct HostConfig<S> {
    /// `[general] page_size`.
    pub page_size: usize,
    /// `[general] page_keys`: previous and next page.
    pub page_keys: (char, char),
    /// `[general] english_mode`: the switch key may enter English mode.
    pub english_mode: bool,
    /// `[general] english_candidates`: English mode offers candidates.
    pub english_candidates: bool,
    /// `[shortcut] switch_mode`.
    pub switch_mode: SwitchKey,
    /// `[shortcut] delete_candidate`: modifiers that, with a digit, forget a candidate.
    pub delete_candidate: Modifiers,
    /// `[general] raw_preedit`: show the typed keys instead of the parsed pinyin.
    pub raw_preedit: bool,
    /// `[general] layout`.
    pub layout: LayoutMode,
    /// `[general] scheme`.
    pub scheme: Scheme<S>,
}

} // verus!
