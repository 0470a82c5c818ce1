//! One key event from ibus, end to end: modifiers, the switch-key tap, Caps Lock,
//! the forget-candidate chord, shortcuts left to the application, then the
//! character and command handlers.

use vstd::prelude::*;

use crate::config::{Modifiers, SwitchKey};
use crate::host::Host;
use crate::keymap::{chord_digit_of, Key};
use crate::keys::{
    char_model, command_model, commit_raw, commit_raw_model, handle_char, handle_command,
    page_turn_model, passed_model, consumed_model, then_pass, turned_highlight, turns, CommandKey,
    Outcome,
};
use crate::modifiers::{
    has_mask, special, ModifierState, CONTROL_MASK, HYPER_MASK, LOCK_MASK, META_MASK, MOD1_MASK,
    MOD4_MASK, MOD5_MASK, RELEASE_MASK, SHIFT_MASK, SUPER_MASK,
};
use crate::plan::{plan, EngineView, Effect, Plan, PlanModel};
use crate::session::slot_index;

verus! {

/// A key event, translated.
#[derive(Debug, Clone, Copy)]
pub struct PressedKey {
    /// The key, if the shell knows it.
    pub key: Option<Key>,
    /// Physical keycode, X (evdev + 8) or raw evdev as the client sends it: modifier +
    /// digit chords go by it.
    pub keycode: u32,
    /// Modifier state.
    pub state: ModifierState,
}

/// How to repaint after a key.
#[derive(Debug, Clone, Copy, PartialEq, Eq, Structural)]
pub enum FrameRequest {
    /// Query the engine again and repaint everything.
    Requery,
    /// Repaint from the session as it is.
    Repaint,
    /// Nothing to send.
    Keep,
}

/// Shift, Control or another modifier key itself.
pub open spec fn is_modifier_key(key: Option<Key>) -> bool {
    key == Some(Key::Shift) || key == Some(Key::Control) || key == Some(Key::Modifier)
}

/// The key is the configured switch key.
pub open spec fn is_switch(key: Option<Key>, switch: SwitchKey) -> bool {
    (switch == SwitchKey::Shift && key == Some(Key::Shift))
        || (switch == SwitchKey::Control && key == Some(Key::Control))
}

/// Another significant modifier is held with the switch key: a chord, not a tap.
pub open spec fn chorded(state: u32, switch: SwitchKey) -> bool {
    let others = has_mask(state, MOD1_MASK) || has_mask(state, MOD4_MASK) || has_mask(state, SUPER_MASK)
        || has_mask(state, META_MASK) || has_mask(state, HYPER_MASK);
    if switch == SwitchKey::Shift {
        has_mask(state, CONTROL_MASK) || others
    } else if switch == SwitchKey::Control {
        has_mask(state, SHIFT_MASK) || others
    } else {
        false
    }
}

/// The held modifiers as the configuration writes them (Alt is `option`, Super or Mod4
/// is `command`); `None` when Meta, Hyper or Mod5 (AltGr) is held, which no
/// configured chord can name.
pub open spec fn chord(state: u32) -> Option<Modifiers> {
    if !has_mask(state, META_MASK) && !has_mask(state, HYPER_MASK) && !has_mask(state, MOD5_MASK) {
        Some(Modifiers {
            shift: has_mask(state, SHIFT_MASK),
            control: has_mask(state, CONTROL_MASK),
            option: has_mask(state, MOD1_MASK),
            command: has_mask(state, MOD4_MASK) || has_mask(state, SUPER_MASK),
        })
    } else {
        None
    }
}

/// A key press (not a release) of a non-modifier key: the notice goes away.
pub open spec fn clears_notice(pressed: PressedKey) -> bool {
    !has_mask(pressed.state.raw, RELEASE_MASK) && !is_modifier_key(pressed.key)
}

/// The forget-candidate chord: while composing (outside expressions), a digit-row key
/// with exactly the configured modifiers.
pub open spec fn forget_chord(h: Host, pressed: PressedKey, v: EngineView) -> bool {
    &&& pressed.key matches Some(Key::Char(c)) && chord_digit_of(c, pressed.keycode) is Some
    &&& v.composing
    &&& !v.expression_mode
    &&& chord(pressed.state.raw) == Some(h.delete_keys)
}

/// What one key event does.
pub ghost struct Dispatched {
    /// Engine operations and outcome.
    pub plan: PlanModel,
    /// The switch key is waiting for its release.
    pub tap_pending: bool,
    /// Highlight afterwards.
    pub highlight: int,
}

/// A key release.
pub open spec fn release_model(h: Host, pressed: PressedKey, v: EngineView) -> Dispatched {
    let state = pressed.state.raw;
    let key = pressed.key;
    let hl = h.session.highlight() as int;
    if is_switch(key, h.switch_key) && !chorded(state, h.switch_key) {
        if h.switch_tap_pending && h.switch_key != SwitchKey::Off && h.english_mode_enabled {
            // A tap: flip the mode, committing what was typed so far.
            let raw = commit_raw_model(v.composing);
            Dispatched {
                plan: PlanModel { effects: seq![Effect::SetEnglishMode(!v.english_mode)] + raw.effects, ..raw },
                tap_pending: false,
                highlight: hl,
            }
        } else {
            Dispatched { plan: passed_model(), tap_pending: false, highlight: hl }
        }
    } else {
        Dispatched { plan: passed_model(), tap_pending: h.switch_tap_pending, highlight: hl }
    }
}

/// A printable key pressed; `had_notice` tells whether a notice was up before it.
pub open spec fn char_key_model(h: Host, pressed: PressedKey, v: EngineView, c: char, had_notice: bool) -> Dispatched {
    let state = pressed.state.raw;
    let hl = h.session.highlight() as int;
    let len = h.session.len() as int;
    let ps = h.page_size as int;
    let stay = |p: PlanModel| Dispatched { plan: p, tap_pending: false, highlight: hl };
    if has_mask(state, LOCK_MASK) {
        // Caps Lock on: pure pass-through.
        stay(then_pass(commit_raw_model(v.composing), c))
    } else if forget_chord(h, pressed, v) {
        match slot_index(hl, len, chord_digit_of(c, pressed.keycode)->0 - 1, ps) {
            Some(index) => stay(plan(seq![Effect::ForgetCandidate(index)], true, true, false)),
            None => stay(if had_notice { plan(seq![], true, false, true) } else { plan(seq![], true, false, false) }),
        }
    } else if special(state) {
        stay(plan(seq![Effect::CommitRaw], false, true, false))
    } else {
        let (p, highlight) = char_model(v, hl, len, ps, h.page_keys, h.english_candidates, c);
        Dispatched { plan: p, tap_pending: false, highlight }
    }
}

/// An editing or navigation key pressed.
pub open spec fn command_key_model(h: Host, pressed: PressedKey, v: EngineView, command: CommandKey) -> Dispatched {
    let state = pressed.state.raw;
    let hl = h.session.highlight() as int;
    let len = h.session.len() as int;
    let ps = h.page_size as int;
    if special(state) {
        Dispatched { plan: plan(seq![Effect::CommitRaw], false, true, false), tap_pending: false, highlight: hl }
    } else if command == CommandKey::Tab && has_mask(state, SHIFT_MASK) && v.composing {
        // Shift+Tab while composing: previous page.
        Dispatched {
            plan: page_turn_model(turns(hl, len, -1, ps)),
            tap_pending: false,
            highlight: turned_highlight(hl, len, -1, ps),
        }
    } else {
        let (p, highlight) = command_model(v, hl, len, ps, command);
        Dispatched { plan: p, tap_pending: false, highlight }
    }
}

/// What a key event does, given the host and the engine snapshot.
pub open spec fn dispatch_model(h: Host, pressed: PressedKey, v: EngineView) -> Dispatched {
    let key = pressed.key;
    let hl = h.session.highlight() as int;
    if has_mask(pressed.state.raw, RELEASE_MASK) {
        release_model(h, pressed, v)
    } else {
        match key {
            Some(Key::Shift) | Some(Key::Control) => Dispatched {
                plan: passed_model(),
                tap_pending: is_switch(key, h.switch_key) && !chorded(pressed.state.raw, h.switch_key),
                highlight: hl,
            },
            Some(Key::Modifier) => Dispatched { plan: passed_model(), tap_pending: false, highlight: hl },
            Some(Key::Char(c)) => char_key_model(h, pressed, v, c, h.notice is Some),
            Some(Key::Command(command)) => command_key_model(h, pressed, v, command),
            None => Dispatched {
                plan: if v.composing { consumed_model() } else { passed_model() },
                tap_pending: false,
                highlight: hl,
            },
        }
    }
}

fn plan_of(effects: Vec<Effect>, outcome: Outcome) -> (p: Plan)
    ensures
        p.effects@ == effects@,
        p.outcome == outcome,
        p.punctuate is None,
{
    Plan { effects, outcome, punctuate: None }
}

fn is_switch_key(key: Option<Key>, switch: SwitchKey) -> (r: bool)
    ensures
        r == is_switch(key, switch),
{
    match (switch, key) {
        (SwitchKey::Shift, Some(Key::Shift)) => true,
        (SwitchKey::Control, Some(Key::Control)) => true,
        _ => false,
    }
}

fn is_chorded(state: ModifierState, switch: SwitchKey) -> (r: bool)
    ensures
        r == chorded(state.raw, switch),
{
    let others = state.mod1() || state.mod4() || state.super_() || state.meta() || state.hyper();
    match switch {
        SwitchKey::Shift => state.control() || others,
        SwitchKey::Control => state.shift() || others,
        _ => false,
    }
}

/// The configured chord the modifier state spells, if any.
pub fn chord_of(state: ModifierState) -> (r: Option<Modifiers>)
    ensures
        r == chord(state.raw),
{
    if !state.meta() && !state.hyper() && !state.mod5() {
        Some(Modifiers {
            shift: state.shift(),
            control: state.control(),
            option: state.mod1(),
            command: state.mod4() || state.super_(),
        })
    } else {
        None
    }
}

/// The session and settings are the same, apart from the highlight.
pub open spec fn same_but_highlight(a: Host, b: Host) -> bool {
    &&& a.session.texts() == b.session.texts()
    &&& a.session.len() == b.session.len()
    &&& a.session.preedit_text() == b.session.preedit_text()
    &&& a.session.preedit_cursor_pos() == b.session.preedit_cursor_pos()
    &&& a.same_settings(&b)
}

fn release(host: &mut Host, pressed: PressedKey, view: &EngineView) -> (p: Plan)
    ensures
        p@ == release_model(*old(host), pressed, *view).plan,
        p.fresh(),
        final(host).switch_tap_pending == release_model(*old(host), pressed, *view).tap_pending,
        final(host).session == old(host).session,
        final(host).notice == old(host).notice,
        final(host).same_settings(old(host)),
{
    let key = pressed.key;
    let state = pressed.state;
    if is_switch_key(key, host.switch_key) && !is_chorded(state, host.switch_key) {
        if let Some(english) = host.switch_released(view.english_mode) {
            let mut p = commit_raw(view);
            let mut effects = Vec::new();
            effects.push(Effect::SetEnglishMode(english));
            effects.append(&mut p.effects);
            p.effects = effects;
            return p;
        }
    }
    plan_of(Vec::new(), Outcome::passed())
}

fn char_key(host: &mut Host, pressed: PressedKey, view: &EngineView, c: char, had_notice: bool) -> (p: Plan)
    requires
        !old(host).switch_tap_pending,
        pressed.key == Some(Key::Char(c)),
    ensures
        p@ == char_key_model(*old(host), pressed, *view, c, had_notice).plan,
        p.fresh(),
        !final(host).switch_tap_pending,
        final(host).session.highlight() == char_key_model(*old(host), pressed, *view, c, had_notice).highlight,
        final(host).notice == old(host).notice,
        same_but_highlight(*final(host), *old(host)),
{
    let state = pressed.state;
    if state.lock() {
        // Caps Lock on: commit what was typed, pass the character on.
        let mut p = commit_raw(view);
        p.effects.push(Effect::NotePassthrough(c));
        p.outcome.handled = false;
        return p;
    }
    if view.composing && !view.expression_mode {
        if let Some(digit) = crate::keymap::chord_digit(c, pressed.keycode) {
            if chord_of(state) == Some(host.delete_keys) {
                // Modifier + digit forgets candidate `digit` of the page; inside
                // expressions Shift+digit types operators instead.
                match host.session.index_on_page(digit - 1, host.page_size) {
                    Some(index) => {
                        let mut effects = Vec::new();
                        effects.push(Effect::ForgetCandidate(index));
                        return plan_of(effects, Outcome::consumed());
                    },
                    None => {
                        // No candidate there: swallow the key; repaint if a notice
                        // was just dropped.
                        if had_notice {
                            return plan_of(Vec::new(), Outcome::redrawn());
                        }
                        let mut outcome = Outcome::passed();
                        outcome.handled = true;
                        return plan_of(Vec::new(), outcome);
                    },
                }
            }
        }
    }
    if state.has_special_modifiers() {
        // Application shortcut: commit what was typed, then let the key through.
        let mut p = commit_raw(view);
        p.outcome.handled = false;
        p.outcome.refresh = true;
        return p;
    }
    handle_char(view, &mut host.session, host.page_size, host.page_keys, host.english_candidates, c)
}

fn command_key(host: &mut Host, pressed: PressedKey, view: &EngineView, command: CommandKey) -> (p: Plan)
    requires
        !old(host).switch_tap_pending,
    ensures
        p@ == command_key_model(*old(host), pressed, *view, command).plan,
        p.fresh(),
        !final(host).switch_tap_pending,
        final(host).session.highlight() == command_key_model(*old(host), pressed, *view, command).highlight,
        final(host).notice == old(host).notice,
        same_but_highlight(*final(host), *old(host)),
{
    let state = pressed.state;
    if state.has_special_modifiers() {
        let mut p = commit_raw(view);
        p.outcome.handled = false;
        p.outcome.refresh = true;
        return p;
    }
    if command == CommandKey::Tab && state.shift() && view.composing {
        // Shift+Tab while composing: previous page (outside composition it is the
        // application's backward Tab).
        let mut effects = Vec::new();
        if host.session.turn_page(-1, host.page_size) {
            effects.push(Effect::NotePageTurn);
        }
        return plan_of(effects, Outcome::redrawn());
    }
    handle_command(view, &mut host.session, host.page_size, command)
}

/// Handles one key event. The notice of a forgotten candidate is dropped on every key
/// press except of modifiers; a forgotten candidate's message is set by whoever runs
/// the plan's [`Effect::ForgetCandidate`].
pub fn dispatch_inner(host: &mut Host, pressed: PressedKey, view: &EngineView) -> (p: Plan)
    ensures
        p@ == dispatch_model(*old(host), pressed, *view).plan,
        p.fresh(),
        final(host).switch_tap_pending == dispatch_model(*old(host), pressed, *view).tap_pending,
        final(host).session.highlight() == dispatch_model(*old(host), pressed, *view).highlight,
        final(host).notice == (if clears_notice(pressed) { None } else { old(host).notice }),
        same_but_highlight(*final(host), *old(host)),
{
    let key = pressed.key;
    let state = pressed.state;
    if state.is_keyup() {
        // The switch key tapped alone flips Chinese / English.
        return release(host, pressed, view);
    }
    // The notice lives until the next key press; modifier keys themselves do not count.
    let had_notice = host.notice.is_some();
    match key {
        Some(Key::Shift) | Some(Key::Control) => {
            if is_switch_key(key, host.switch_key) && !is_chorded(state, host.switch_key) {
                host.switch_pressed();
            } else {
                // Another modifier, or the switch key pressed into a chord.
                host.break_switch_tap();
            }
            plan_of(Vec::new(), Outcome::passed())
        },
        Some(Key::Modifier) => {
            host.break_switch_tap();
            plan_of(Vec::new(), Outcome::passed())
        },
        Some(Key::Char(c)) => {
            host.notice = None;
            host.break_switch_tap();
            char_key(host, pressed, view, c, had_notice)
        },
        Some(Key::Command(command)) => {
            host.notice = None;
            host.break_switch_tap();
            command_key(host, pressed, view, command)
        },
        None => {
            // Unknown keys are eaten while composing (the application must not move
            // under the preedit) and passed otherwise.
            host.notice = None;
            host.break_switch_tap();
            if view.composing {
                plan_of(Vec::new(), Outcome::consumed())
            } else {
                plan_of(Vec::new(), Outcome::passed())
            }
        },
    }
}

/// The repaint a key's outcome asks for: a new query after buffer changes, a repaint
/// after highlight or page moves, else nothing.
pub fn next_frame(outcome: &Outcome) -> (r: FrameRequest)
    ensures
        r == (if outcome.refresh { FrameRequest::Requery } else if outcome.redraw {
            FrameRequest::Repaint
        } else {
            FrameRequest::Keep
        }),
{
    if outcome.refresh {
        FrameRequest::Requery
    } else if outcome.redraw {
        FrameRequest::Repaint
    } else {
        FrameRequest::Keep
    }
}

} // verus!
