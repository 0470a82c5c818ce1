//! Properties of the key handling that hold for every input, over the models that the
//! handlers' contracts are stated in.

use vstd::prelude::*;

use crate::config::SwitchKey;
use crate::dispatch::{chorded, dispatch_model, is_switch, PressedKey};
use crate::host::Host;
use crate::keymap::{key_of, Key, XK_BACKSPACE, XK_DELETE, XK_ESCAPE, XK_ISO_LEFT_TAB, XK_KP_DELETE, XK_KP_ENTER, XK_KP_TAB, XK_LINEFEED, XK_RETURN, XK_TAB, XK_DOWN, XK_END, XK_HOME, XK_KP_DOWN, XK_KP_END, XK_KP_HOME, XK_KP_LEFT, XK_KP_NEXT, XK_KP_PRIOR, XK_KP_RIGHT, XK_KP_UP, XK_LEFT, XK_NEXT, XK_PRIOR, XK_RIGHT, XK_UP};
use crate::keys::{
    char_model, command_model, commit_index_model, commit_raw_model, english_char_model, turned_highlight, turns,
    is_alphabetic, is_digit, is_lower, is_pick_digit, is_upper, punctuation_model, push_model,
    CommandKey,
};
use crate::modifiers::{
    has_mask, special, CONTROL_MASK, HYPER_MASK, LOCK_MASK, META_MASK, MOD1_MASK, MOD4_MASK, RELEASE_MASK,
    SHIFT_MASK, SUPER_MASK,
};
use crate::plan::{plan, EngineView, Effect};
use crate::present::{shows, Frame};
use crate::session::{
    effective_page_size, moved_highlight, page_count, page_of, slot_index, target_page,
};

verus! {

/// A digit picks on the highlighted page: the slot it names is on the same page as the
/// highlight, inside the candidates, at the digit's offset from the page start.
pub proof fn law_digits_pick_on_the_current_page(highlight: int, len: int, offset: int, page_size: int)
    requires
        0 <= highlight,
        0 <= offset,
        1 <= page_size,
        len <= usize::MAX,
        slot_index(highlight, len, offset, page_size) is Some,
    ensures
        ({
            let index = slot_index(highlight, len, offset, page_size)->0 as int;
            &&& index < len
            &&& page_of(index, page_size) == page_of(highlight, page_size)
            &&& index == page_of(highlight, page_size) * page_size + offset
        }),
{
    let p = highlight / page_size;
    let index = p * page_size + offset;
    assert(index / page_size == p) by {
        vstd::arithmetic::div_mod::lemma_div_pos_is_pos(highlight, page_size);
        vstd::arithmetic::div_mod::lemma_fundamental_div_mod_converse(index, page_size, p, offset);
    }
}

/// A page turn that happens lands on the first slot of the new page.
pub proof fn law_turn_lands_on_page_start(highlight: int, len: int, delta: int, page_size: int)
    requires
        0 <= highlight,
        1 <= page_size,
        target_page(highlight, len, delta, page_size) != page_of(highlight, page_size),
    ensures
        ({
            let landed = target_page(highlight, len, delta, page_size) * page_size;
            &&& landed % page_size == 0
            &&& page_of(landed, page_size) == target_page(highlight, len, delta, page_size)
        }),
{
    let t = target_page(highlight, len, delta, page_size);
    assert(0 <= t);
    vstd::arithmetic::div_mod::lemma_fundamental_div_mod_converse(t * page_size, page_size, t, 0);
}

/// Turning forward on the last page, or backward on the first, does nothing.
pub proof fn law_turning_past_the_edges_does_nothing(highlight: int, len: int, delta: int, page_size: int)
    requires
        0 <= highlight,
        len == 0 ==> highlight == 0,
        len > 0 ==> highlight < len,
        (delta >= 0 && page_of(highlight, page_size) == page_count(len, page_size) - 1)
            || (delta <= 0 && page_of(highlight, page_size) == 0),
    ensures
        target_page(highlight, len, delta, page_size) == page_of(highlight, page_size),
{
    let p = effective_page_size(page_size);
    if len > 0 {
        vstd::arithmetic::div_mod::lemma_div_is_ordered(highlight, len - 1, p);
    }
    vstd::arithmetic::div_mod::lemma_div_pos_is_pos(highlight, p);
}

/// The highlight stays on a candidate whatever it is moved by, and does not move past
/// the ends.
pub proof fn law_highlight_moves_and_clamps(highlight: int, len: int, delta: int)
    requires
        0 <= highlight < len,
    ensures
        0 <= moved_highlight(highlight, len, delta) < len,
        delta >= 0 && highlight == len - 1 ==> moved_highlight(highlight, len, delta) == highlight,
        delta <= 0 && highlight == 0 ==> moved_highlight(highlight, len, delta) == highlight,
{
}

/// In Chinese mode a lowercase letter always goes into the buffer.
pub proof fn law_letters_compose(v: EngineView, highlight: int, len: int, page_size: int, page_keys: (char, char), english_candidates: bool, c: char)
    requires
        !v.english_mode,
        is_lower(c),
    ensures
        char_model(v, highlight, len, page_size, page_keys, english_candidates, c) == (push_model(c), highlight),
{
    reveal(char_model);
}

/// Page keys only repaint: they never ask for a new query (which would reset highlight
/// and page), in Chinese and in English mode.
pub proof fn law_page_keys_redraw_without_requerying(v: EngineView, highlight: int, len: int, page_size: int, page_keys: (char, char), english_candidates: bool, c: char)
    requires
        v.composing,
        c == page_keys.0 || c == page_keys.1,
        !is_alphabetic(c),
        !is_digit(c),
        c != ' ' && c != '\'' && c != ';' && c != '_' && c != '-',
        !v.english_mode ==> !v.question_mode && !v.expression_mode && !v.raw_mode && !v.bare_question,
        v.english_mode ==> english_candidates,
    ensures
        ({
            let p = char_model(v, highlight, len, page_size, page_keys, english_candidates, c).0;
            p.handled && p.redraw && !p.refresh && p.punctuate is None
        }),
{
    reveal(char_model);
    reveal(english_char_model);
}

/// Space while composing Chinese commits the highlighted candidate (the typed pinyin when
/// there is none).
pub proof fn law_space_commits_highlighted(v: EngineView, highlight: int, len: int, page_size: int, page_keys: (char, char), english_candidates: bool)
    requires
        v.composing,
        !v.english_mode,
        !v.raw_mode,
        !v.expression_mode,
        !v.bare_question,
        ' ' != page_keys.0 && ' ' != page_keys.1,
    ensures
        char_model(v, highlight, len, page_size, page_keys, english_candidates, ' ').0
            == commit_index_model(true, len, highlight),
{
    reveal(char_model);
}

/// Enter while composing commits the pinyin as typed and is eaten; Escape empties the
/// buffer.
pub proof fn law_enter_commits_raw_escape_clears(v: EngineView, highlight: int, len: int, page_size: int)
    requires
        v.composing,
        !v.bare_question,
    ensures
        command_model(v, highlight, len, page_size, CommandKey::Enter).0 == commit_raw_model(true),
        command_model(v, highlight, len, page_size, CommandKey::Escape).0.effects == seq![Effect::Clear],
        command_model(v, highlight, len, page_size, CommandKey::Escape).0.handled,
{
    reveal(command_model);
}

/// Out of composition a key that is no punctuation goes to the application: eaten only
/// when the engine turned it into full-width punctuation.
pub proof fn law_punctuation_or_pass(v: EngineView, highlight: int, len: int, page_size: int, page_keys: (char, char), english_candidates: bool, c: char, punctuated: bool)
    requires
        !v.composing,
        !v.english_mode,
        !v.takes_mode_letter,
        !is_lower(c),
        !is_upper(c),
        c != '?',
    ensures
        char_model(v, highlight, len, page_size, page_keys, english_candidates, c).0.punctuate == Some(c),
        !char_model(v, highlight, len, page_size, page_keys, english_candidates, c).0.handled,
        punctuation_model(punctuated, c).handled == punctuated,
{
    reveal(char_model);
}

/// A key press, not a release.
pub open spec fn press(key: Option<Key>, state: u32) -> PressedKey {
    PressedKey { key, keycode: 0, state: crate::modifiers::ModifierState { raw: state } }
}

/// Unknown keys are eaten while composing and passed otherwise.
pub proof fn law_unknown_keys_swallowed_while_composing(h: Host, state: u32, v: EngineView)
    requires
        !has_mask(state, RELEASE_MASK),
    ensures
        dispatch_model(h, press(None, state), v).plan.handled == v.composing,
        dispatch_model(h, press(None, state), v).plan.effects.len() == 0,
{
}

/// Caps Lock on: no printable key is eaten; what was typed is committed as typed.
pub proof fn law_caps_lock_passes_through(h: Host, pressed: PressedKey, v: EngineView, c: char)
    requires
        pressed.key == Some(Key::Char(c)),
        !has_mask(pressed.state.raw, RELEASE_MASK),
        has_mask(pressed.state.raw, LOCK_MASK),
    ensures
        !dispatch_model(h, pressed, v).plan.handled,
        dispatch_model(h, pressed, v).plan.effects == seq![Effect::CommitRaw, Effect::NotePassthrough(c)],
{
}

/// Shortcuts (Ctrl / Alt / Super / Meta / Hyper held) belong to the application: the
/// typed text is committed first and the key passed on. The forget-candidate chord,
/// when configured with such modifiers, is the exception.
pub proof fn law_shortcuts_pass_after_committing(h: Host, pressed: PressedKey, v: EngineView)
    requires
        !has_mask(pressed.state.raw, RELEASE_MASK),
        !has_mask(pressed.state.raw, LOCK_MASK),
        special(pressed.state.raw),
        pressed.key matches Some(Key::Char(_)) || pressed.key matches Some(Key::Command(_)),
        !crate::dispatch::forget_chord(h, pressed, v),
    ensures
        !dispatch_model(h, pressed, v).plan.handled,
        dispatch_model(h, pressed, v).plan.refresh,
        dispatch_model(h, pressed, v).plan.effects == seq![Effect::CommitRaw],
{
}

/// Forgetting a candidate happens only while composing outside expressions, and never
/// commits anything; without a candidate in that slot the key is just eaten.
pub proof fn law_forget_only_while_composing(h: Host, pressed: PressedKey, v: EngineView)
    requires
        !has_mask(pressed.state.raw, RELEASE_MASK),
        exists|i: usize| dispatch_model(h, pressed, v).plan.effects.contains(Effect::ForgetCandidate(i)),
    ensures
        v.composing,
        !v.expression_mode,
        dispatch_model(h, pressed, v).plan.handled,
        !dispatch_model(h, pressed, v).plan.effects.contains(Effect::CommitRaw),
{
    reveal(char_model);
    reveal(english_char_model);
    reveal(command_model);
    let i = choose|i: usize| dispatch_model(h, pressed, v).plan.effects.contains(Effect::ForgetCandidate(i));
    let effects = dispatch_model(h, pressed, v).plan.effects;
    let k = choose|k: int| 0 <= k < effects.len() && effects[k] == Effect::ForgetCandidate(i);
    assert(effects[k] == Effect::ForgetCandidate(i));
}

/// The release of a key: `press` with the release bit.
pub open spec fn release_of(key: Option<Key>, state: u32) -> PressedKey {
    PressedKey { key, keycode: 0, state: crate::modifiers::ModifierState { raw: state | RELEASE_MASK } }
}

/// A tap of the switch key — pressed and released with nothing in between and no other
/// modifier held — flips between Chinese and English, committing what was typed; the
/// same tap again flips back.
pub proof fn law_switch_tap_toggles(h: Host, key: Key, v: EngineView)
    requires
        is_switch(Some(key), h.switch_key),
        h.english_mode_enabled,
    ensures
        dispatch_model(h, press(Some(key), 0), v).tap_pending,
        ({
            let h1 = Host { switch_tap_pending: true, ..h };
            let released = dispatch_model(h1, release_of(Some(key), 0), v);
            &&& released.plan.effects == seq![Effect::SetEnglishMode(!v.english_mode), Effect::CommitRaw]
            &&& !released.tap_pending
        }),
        ({
            let h1 = Host { switch_tap_pending: true, ..h };
            let v2 = EngineView { english_mode: !v.english_mode, ..v };
            dispatch_model(h1, release_of(Some(key), 0), v2).plan.effects[0]
                == Effect::SetEnglishMode(v.english_mode)
        }),
{
    assert((0u32 | RELEASE_MASK) == RELEASE_MASK) by (bit_vector);
    assert(!has_mask(0, RELEASE_MASK)) by (bit_vector);
    assert(has_mask(RELEASE_MASK, RELEASE_MASK)) by (bit_vector);
    assert(!chorded(0, h.switch_key)) by {
        assert(0u32 & crate::modifiers::CONTROL_MASK == 0) by (bit_vector);
        assert(0u32 & crate::modifiers::SHIFT_MASK == 0) by (bit_vector);
        assert(0u32 & crate::modifiers::MOD1_MASK == 0) by (bit_vector);
        assert(0u32 & crate::modifiers::MOD4_MASK == 0) by (bit_vector);
        assert(0u32 & crate::modifiers::SUPER_MASK == 0) by (bit_vector);
        assert(0u32 & crate::modifiers::META_MASK == 0) by (bit_vector);
        assert(0u32 & crate::modifiers::HYPER_MASK == 0) by (bit_vector);
    }
    assert(!chorded(RELEASE_MASK, h.switch_key)) by {
        assert(RELEASE_MASK & crate::modifiers::CONTROL_MASK == 0) by (bit_vector);
        assert(RELEASE_MASK & crate::modifiers::SHIFT_MASK == 0) by (bit_vector);
        assert(RELEASE_MASK & crate::modifiers::MOD1_MASK == 0) by (bit_vector);
        assert(RELEASE_MASK & crate::modifiers::MOD4_MASK == 0) by (bit_vector);
        assert(RELEASE_MASK & crate::modifiers::SUPER_MASK == 0) by (bit_vector);
        assert(RELEASE_MASK & crate::modifiers::META_MASK == 0) by (bit_vector);
        assert(RELEASE_MASK & crate::modifiers::HYPER_MASK == 0) by (bit_vector);
    }
}

/// Any other key pressed while the switch key is down breaks the tap.
pub proof fn law_other_key_breaks_the_tap(h: Host, pressed: PressedKey, v: EngineView)
    requires
        !has_mask(pressed.state.raw, RELEASE_MASK),
        !is_switch(pressed.key, h.switch_key),
    ensures
        !dispatch_model(h, pressed, v).tap_pending,
{
}

/// With no switch key configured (`none`, or `ctrl+space`, which the shell turns into
/// none) the mode never flips.
pub proof fn law_no_switch_key_never_toggles(h: Host, pressed: PressedKey, v: EngineView)
    requires
        h.switch_key == SwitchKey::Off,
        has_mask(pressed.state.raw, RELEASE_MASK),
    ensures
        dispatch_model(h, pressed, v).plan.effects.len() == 0,
        !dispatch_model(h, pressed, v).plan.handled,
{
}

/// Out of composition nothing is shown: neither preedit nor candidate table.
pub proof fn law_nothing_shown_when_not_composing(f: Frame, h: Host)
    requires
        shows(f, h, false),
    ensures
        !f.preedit_visible,
        !f.table_visible,
        f.aux@ == h.session.preedit_text(),
{
}

/// A digit 1..9 while composing Chinese commits the candidate in that slot of the page
/// shown — the page holding the highlight — counting from the page's first slot.
pub proof fn law_digit_commits_on_the_page_shown(v: EngineView, highlight: int, len: int, page_size: int, page_keys: (char, char), english_candidates: bool, c: char)
    requires
        v.composing,
        !v.english_mode,
        !v.raw_mode,
        !v.expression_mode,
        !v.question_mode,
        !v.bare_question,
        is_pick_digit(c),
        1 <= page_size,
        0 <= highlight < len,
        (c as u32) - ('1' as u32) < page_size,
        (highlight / page_size) * page_size + ((c as u32) - ('1' as u32)) < len,
    ensures
        ({
            let index = (highlight / page_size) * page_size + ((c as u32) - ('1' as u32));
            &&& char_model(v, highlight, len, page_size, page_keys, english_candidates, c)
                == (plan(seq![Effect::CommitCandidate(index as usize)], true, true, false), highlight)
            &&& index / page_size == highlight / page_size
        }),
{
    reveal(char_model);
    let offset = (c as u32) - ('1' as u32);
    let start = (highlight / page_size) * page_size;
    assert((start + offset) / page_size == highlight / page_size) by (nonlinear_arith)
        requires
            1 <= page_size,
            0 <= highlight,
            start == (highlight / page_size) * page_size,
            0 <= offset < page_size,
    {
        vstd::arithmetic::div_mod::lemma_fundamental_div_mod_converse(
            start + offset, page_size, highlight / page_size, offset);
    }
}

/// Up and Down move the highlight one candidate while composing, Up towards the first
/// and Down towards the last, stopping at the ends; they only repaint.
pub proof fn law_up_and_down_step_the_highlight(v: EngineView, highlight: int, len: int, page_size: int)
    requires
        v.composing,
        !v.bare_question,
        0 <= highlight < len,
    ensures
        command_model(v, highlight, len, page_size, CommandKey::Up)
            == (plan(seq![], true, false, true), if highlight > 0 { highlight - 1 } else { 0 }),
        command_model(v, highlight, len, page_size, CommandKey::Down)
            == (plan(seq![], true, false, true), if highlight + 1 < len { highlight + 1 } else { highlight }),
{
    reveal(command_model);
}

/// In English mode with word candidates, Space while composing commits the highlighted
/// word and then passes the space on to the application.
pub proof fn law_english_space_commits_the_highlighted_word(v: EngineView, highlight: int, len: int, page_size: int, page_keys: (char, char))
    requires
        v.composing,
        v.english_mode,
        ' ' != page_keys.0 && ' ' != page_keys.1,
        0 <= highlight < len,
    ensures
        ({
            let p = char_model(v, highlight, len, page_size, page_keys, true, ' ');
            &&& p.0.effects == seq![Effect::CommitCandidate(highlight as usize), Effect::NotePassthrough(' ')]
            &&& !p.0.handled
            &&& p.1 == highlight
        }),
{
    reveal(char_model);
    reveal(english_char_model);
}

/// Each editing and navigation keysym, and nothing else, translates to the command it
/// names: the arrows to their directions, Home and End, Prior to Page Up and Next to
/// Page Down, Return to Enter, and so on (main keyboard and keypad alike; Shift+Tab
/// arrives as ISO_Left_Tab).
pub proof fn law_command_keysyms_name_their_commands(k: u32)
    ensures
        key_of(k) == Some(Key::Command(CommandKey::PageUp)) <==> (k == XK_PRIOR || k == XK_KP_PRIOR),
        key_of(k) == Some(Key::Command(CommandKey::PageDown)) <==> (k == XK_NEXT || k == XK_KP_NEXT),
        key_of(k) == Some(Key::Command(CommandKey::Up)) <==> (k == XK_UP || k == XK_KP_UP),
        key_of(k) == Some(Key::Command(CommandKey::Down)) <==> (k == XK_DOWN || k == XK_KP_DOWN),
        key_of(k) == Some(Key::Command(CommandKey::Left)) <==> (k == XK_LEFT || k == XK_KP_LEFT),
        key_of(k) == Some(Key::Command(CommandKey::Right)) <==> (k == XK_RIGHT || k == XK_KP_RIGHT),
        key_of(k) == Some(Key::Command(CommandKey::Home)) <==> (k == XK_HOME || k == XK_KP_HOME),
        key_of(k) == Some(Key::Command(CommandKey::End)) <==> (k == XK_END || k == XK_KP_END),
        key_of(k) == Some(Key::Command(CommandKey::Backspace)) <==> k == XK_BACKSPACE,
        key_of(k) == Some(Key::Command(CommandKey::Delete)) <==> (k == XK_DELETE || k == XK_KP_DELETE),
        key_of(k) == Some(Key::Command(CommandKey::Enter)) <==> (k == XK_RETURN || k == XK_KP_ENTER || k == XK_LINEFEED),
        key_of(k) == Some(Key::Command(CommandKey::Escape)) <==> k == XK_ESCAPE,
        key_of(k) == Some(Key::Command(CommandKey::Tab)) <==> (k == XK_TAB || k == XK_KP_TAB || k == XK_ISO_LEFT_TAB),
{
}

/// The switch key pressed or released while another significant modifier is held
/// (Control with a Shift switch key, Shift with a Control one, or Alt, Super, Meta,
/// Hyper) is part of a chord, such as a layout-switch shortcut: the press does not start
/// a tap, and the release does nothing and never flips the mode.
pub proof fn law_chorded_switch_key_never_toggles(h: Host, key: Key, pressed: PressedKey, released: PressedKey, v: EngineView)
    requires
        is_switch(Some(key), h.switch_key),
        pressed.key == Some(key),
        released.key == Some(key),
        !has_mask(pressed.state.raw, RELEASE_MASK),
        has_mask(released.state.raw, RELEASE_MASK),
        ({
            ||| (h.switch_key == SwitchKey::Shift && has_mask(pressed.state.raw, CONTROL_MASK))
            ||| (h.switch_key == SwitchKey::Control && has_mask(pressed.state.raw, SHIFT_MASK))
            ||| has_mask(pressed.state.raw, MOD1_MASK)
            ||| has_mask(pressed.state.raw, MOD4_MASK)
            ||| has_mask(pressed.state.raw, SUPER_MASK)
            ||| has_mask(pressed.state.raw, META_MASK)
            ||| has_mask(pressed.state.raw, HYPER_MASK)
        }),
        ({
            ||| (h.switch_key == SwitchKey::Shift && has_mask(released.state.raw, CONTROL_MASK))
            ||| (h.switch_key == SwitchKey::Control && has_mask(released.state.raw, SHIFT_MASK))
            ||| has_mask(released.state.raw, MOD1_MASK)
            ||| has_mask(released.state.raw, MOD4_MASK)
            ||| has_mask(released.state.raw, SUPER_MASK)
            ||| has_mask(released.state.raw, META_MASK)
            ||| has_mask(released.state.raw, HYPER_MASK)
        }),
    ensures
        !dispatch_model(h, pressed, v).tap_pending,
        dispatch_model(h, released, v).plan.effects.len() == 0,
        !dispatch_model(h, released, v).plan.handled,
        dispatch_model(h, released, v).tap_pending == h.switch_tap_pending,
{
}

/// Where a page key leaves the highlight, in plain arithmetic: forward to the first slot
/// of the next page when there is one, back to the first slot of the previous page when
/// there is one, else where it was.
proof fn lemma_neighbouring_pages(highlight: int, len: int, page_size: int)
    requires
        1 <= page_size,
        0 <= highlight < len,
    ensures
        turns(highlight, len, 1, page_size) == ((highlight / page_size + 1) * page_size < len),
        turned_highlight(highlight, len, 1, page_size) == (if (highlight / page_size + 1) * page_size < len {
            (highlight / page_size + 1) * page_size
        } else {
            highlight
        }),
        turns(highlight, len, -1, page_size) == (highlight / page_size > 0),
        turned_highlight(highlight, len, -1, page_size) == (if highlight / page_size > 0 {
            (highlight / page_size - 1) * page_size
        } else {
            highlight
        }),
{
    let p = highlight / page_size;
    let m = (len - 1) / page_size;
    vstd::arithmetic::div_mod::lemma_div_pos_is_pos(highlight, page_size);
    vstd::arithmetic::div_mod::lemma_div_is_ordered(highlight, len - 1, page_size);
    vstd::arithmetic::div_mod::lemma_fundamental_div_mod(len - 1, page_size);
    assert(page_count(len, page_size) - 1 == m);
    assert(page_of(highlight, page_size) == p);
    if p + 1 <= m {
        assert((p + 1) * page_size <= m * page_size) by (nonlinear_arith)
            requires
                p + 1 <= m,
                1 <= page_size,
        ;
        assert(m * page_size <= len - 1);
    } else {
        assert(m == p);
        assert((p + 1) * page_size >= len) by (nonlinear_arith)
            requires
                len - 1 == m * page_size + (len - 1) % page_size,
                (len - 1) % page_size < page_size,
                m == p,
        ;
    }
}

/// Page keys move by whole pages, the second page key (and Page Down, and Tab in Chinese
/// mode) forward, the first (and Page Up) back: the highlight lands on the first slot of
/// the neighbouring page, or stays where it is when there is no page that way.
pub proof fn law_page_keys_turn_to_the_neighbouring_page(v: EngineView, highlight: int, len: int, page_size: int, page_keys: (char, char), english_candidates: bool)
    requires
        v.composing,
        !v.english_mode,
        !v.raw_mode,
        !v.expression_mode,
        !v.question_mode,
        !v.bare_question,
        page_keys.0 != page_keys.1,
        !is_alphabetic(page_keys.0) && !is_digit(page_keys.0),
        !is_alphabetic(page_keys.1) && !is_digit(page_keys.1),
        page_keys.0 != ' ' && page_keys.0 != '\'' && page_keys.0 != ';',
        page_keys.1 != ' ' && page_keys.1 != '\'' && page_keys.1 != ';',
        1 <= page_size,
        0 <= highlight < len,
    ensures
        ({
            let next = (highlight / page_size + 1) * page_size;
            let forward = if next < len { next } else { highlight };
            &&& char_model(v, highlight, len, page_size, page_keys, english_candidates, page_keys.1).1 == forward
            &&& command_model(v, highlight, len, page_size, CommandKey::PageDown).1 == forward
            &&& command_model(v, highlight, len, page_size, CommandKey::Tab).1 == forward
        }),
        ({
            let back = if highlight / page_size > 0 { (highlight / page_size - 1) * page_size } else { highlight };
            &&& char_model(v, highlight, len, page_size, page_keys, english_candidates, page_keys.0).1 == back
            &&& command_model(v, highlight, len, page_size, CommandKey::PageUp).1 == back
        }),
{
    reveal(char_model);
    reveal(command_model);
    lemma_neighbouring_pages(highlight, len, page_size);
}

/// In English mode with word candidates, a digit 1..9 while composing commits the word
/// in that slot of the page shown.
pub proof fn law_english_digit_commits_on_the_page_shown(v: EngineView, highlight: int, len: int, page_size: int, page_keys: (char, char), c: char)
    requires
        v.composing,
        v.english_mode,
        is_pick_digit(c),
        1 <= page_size,
        0 <= highlight < len,
        (c as u32) - ('1' as u32) < page_size,
        (highlight / page_size) * page_size + ((c as u32) - ('1' as u32)) < len,
    ensures
        ({
            let index = (highlight / page_size) * page_size + ((c as u32) - ('1' as u32));
            char_model(v, highlight, len, page_size, page_keys, true, c)
                == (plan(seq![Effect::CommitCandidate(index as usize)], true, true, false), highlight)
        }),
{
    reveal(char_model);
    reveal(english_char_model);
    vstd::arithmetic::div_mod::lemma_div_pos_is_pos(highlight, page_size);
    assert(0 <= (highlight / page_size) * page_size) by (nonlinear_arith)
        requires
            0 <= highlight / page_size,
            1 <= page_size,
    ;
}

} // verus!
