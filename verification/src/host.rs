//! Host: the per-process state that the key handling keeps besides the engine —
//! candidate session, settings taken from the configuration, the switch-key tap
//! detector and the notice shown beside the pinyin.
//!
//! ibus creates one engine object per input context; all of them share this state,
//! as they share the one composition buffer of the engine.

use vstd::prelude::*;

use crate::config::{HostConfig, LayoutMode, Modifiers, Scheme, SwitchKey};
use crate::session::Session;

verus! {

/// Process-wide key handling state.
#[derive(Debug)]
pub struct Host {
    /// Candidates and highlight of this round.
    pub session: Session,
    /// Candidates per page (`[general] page_size`).
    pub page_size: usize,
    /// Previous / next page keys (`[general] page_keys`).
    pub page_keys: (char, char),
    /// The Chinese / English switch key (`[shortcut] switch_mode`).
    pub switch_key: SwitchKey,
    /// English mode may be entered at all (`[general] english_mode`).
    pub english_mode_enabled: bool,
    /// English mode offers candidates (`[general] english_candidates`).
    pub english_candidates: bool,
    /// The switch key went down and no other key came since.
    pub switch_tap_pending: bool,
    /// Message shown beside the pinyin after a candidate was forgotten; it lives
    /// until the next key press.
    pub notice: Option<String>,
    /// Show the typed keys instead of the parsed pinyin (`[general] raw_preedit`).
    pub raw_preedit: bool,
    /// Candidate table direction (`[general] layout`).
    pub layout: LayoutMode,
    /// Modifiers that with a digit forget a candidate (`[shortcut] delete_candidate`).
    pub delete_keys: Modifiers,
}

/// The switch key the shell uses for a configured one: Ctrl+Space belongs to GNOME's
/// own input source switch and would never reach the engine, so it means no switch.
pub open spec fn effective_switch_key(configured: SwitchKey) -> SwitchKey {
    if configured == SwitchKey::CtrlSpace { SwitchKey::Off } else { configured }
}

/// The shuangpin layout the engine gets for a scheme: full pinyin is `None`;
/// schemes this shell does not support fall back to full pinyin.
pub open spec fn shuangpin_choice<S>(scheme: Scheme<S>) -> Option<S> {
    match scheme {
        Scheme::Shuangpin(s) => Some(s),
        _ => None,
    }
}

impl Host {
    pub open spec fn tap_pending(&self) -> bool {
        self.switch_tap_pending
    }

    pub open spec fn english_enabled(&self) -> bool {
        self.english_mode_enabled
    }

    /// The same settings as `other` (everything taken from the configuration).
    pub open spec fn same_settings(&self, other: &Host) -> bool {
        &&& self.page_size == other.page_size
        &&& self.page_keys == other.page_keys
        &&& self.switch_key == other.switch_key
        &&& self.english_mode_enabled == other.english_mode_enabled
        &&& self.english_candidates == other.english_candidates
        &&& self.raw_preedit == other.raw_preedit
        &&& self.layout == other.layout
        &&& self.delete_keys == other.delete_keys
    }

    /// Whether the host's settings are those of `config`.
    pub open spec fn follows<S>(&self, config: HostConfig<S>) -> bool {
        &&& self.page_size == config.page_size
        &&& self.page_keys == config.page_keys
        &&& self.english_enabled() == config.english_mode
        &&& self.english_candidates == config.english_candidates
        &&& self.switch_key == effective_switch_key(config.switch_mode)
        &&& self.delete_keys == config.delete_candidate
        &&& self.raw_preedit == config.raw_preedit
        &&& self.layout == config.layout
    }

    /// A host with an empty session, no pending tap and no notice, set up from `config`.
    /// Also returns the shuangpin layout for the engine.
    pub fn with_config<S>(config: HostConfig<S>) -> (r: (Self, Option<S>))
        ensures
            r.0.follows(config),
            r.1 == shuangpin_choice(config.scheme),
            r.0.session.len() == 0,
            r.0.session.highlight() == 0,
            !r.0.tap_pending(),
            r.0.notice is None,
    {
        let mut host = Host {
            session: Session::new(),
            page_size: 9,
            page_keys: ('[', ']'),
            switch_key: SwitchKey::Shift,
            english_mode_enabled: true,
            english_candidates: true,
            switch_tap_pending: false,
            notice: None,
            raw_preedit: false,
            layout: LayoutMode::Horizontal,
            delete_keys: Modifiers::shift_only(),
        };
        let shuangpin = host.apply_config(config);
        (host, shuangpin)
    }

    /// Takes the settings of `config` (at start-up and after every reload). Returns the
    /// shuangpin layout the engine is to use (`None`: full pinyin). The session, the
    /// tap detector and the notice are left alone.
    pub fn apply_config<S>(&mut self, config: HostConfig<S>) -> (shuangpin: Option<S>)
        ensures
            final(self).follows(config),
            shuangpin == shuangpin_choice(config.scheme),
            final(self).session == old(self).session,
            final(self).tap_pending() == old(self).tap_pending(),
            final(self).notice == old(self).notice,
    {
        self.page_size = config.page_size;
        self.page_keys = config.page_keys;
        self.english_mode_enabled = config.english_mode;
        self.english_candidates = config.english_candidates;
        self.switch_key = match config.switch_mode {
            SwitchKey::CtrlSpace => SwitchKey::Off,
            other => other,
        };
        self.delete_keys = config.delete_candidate;
        self.raw_preedit = config.raw_preedit;
        self.layout = config.layout;
        match config.scheme {
            Scheme::Shuangpin(s) => Some(s),
            _ => None,
        }
    }

    /// The switch key went down: wait for a tap.
    pub fn switch_pressed(&mut self)
        ensures
            final(self).tap_pending(),
            final(self).session == old(self).session,
            final(self).notice == old(self).notice,
            final(self).same_settings(old(self)),
    {
        self.switch_tap_pending = true;
    }

    /// Another key came: the tap being waited for does not count.
    pub fn break_switch_tap(&mut self)
        ensures
            !final(self).tap_pending(),
            final(self).session == old(self).session,
            final(self).notice == old(self).notice,
            final(self).same_settings(old(self)),
    {
        self.switch_tap_pending = false;
    }

    /// The switch key came up. If nothing came between press and release this is a tap,
    /// and the Chinese / English mode flips: returns the new English mode, given the
    /// current one. No switch with `switch_mode = none` or English mode disabled.
    pub fn switch_released(&mut self, english: bool) -> (switched: Option<bool>)
        ensures
            !final(self).tap_pending(),
            switched == (if old(self).tap_pending() && old(self).switch_key != SwitchKey::Off
                && old(self).english_enabled() { Some(!english) } else { None }),
            final(self).session == old(self).session,
            final(self).notice == old(self).notice,
            final(self).same_settings(old(self)),
    {
        if !self.switch_tap_pending {
            return None;
        }
        self.switch_tap_pending = false;
        if self.switch_key == SwitchKey::Off || !self.english_mode_enabled {
            return None;
        }
        Some(!english)
    }
}

} // verus!
