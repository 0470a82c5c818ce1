//! Key dispatch: what one key does to the composition engine and what gets committed.
//!
//! Printable keys go through [`handle_char`], editing and navigation keys through
//! [`handle_command`]. "Pass to the application" is `handled = false`; repainting
//! (preedit, candidate table) is up to the caller, driven by `refresh` / `redraw`.
//! Nothing here touches a platform API.

use vstd::prelude::*;

use crate::plan::{plan, EngineView, Effect, Plan, PlanModel};
use crate::session::{page_of, slot_index, target_page, moved_highlight, Session};

verus! {

/// What a key did: eaten or not, text committed, and how to repaint.
#[derive(Debug)]
pub struct Outcome {
    /// The key is eaten (otherwise the application handles it as usual).
    pub handled: bool,
    /// Text committed, in order (candidates plus punctuation, raw pinyin).
    pub commits: Vec<String>,
    /// The buffer changed: query again and repaint preedit and candidate table.
    pub refresh: bool,
    /// Only the highlight or the page moved: repaint from the session without a new
    /// query (a query would reset highlight and page).
    pub redraw: bool,
}

impl Outcome {
    /// Eaten, and the buffer changed (keys that edit the buffer).
    pub fn consumed() -> (o: Self)
        ensures
            o.handled,
            o.refresh,
            !o.redraw,
            o.commits@.len() == 0,
    {
        Outcome { handled: true, commits: Vec::new(), refresh: true, redraw: false }
    }

    /// Not eaten, nothing to repaint (plain pass-through).
    pub fn passed() -> (o: Self)
        ensures
            !o.handled,
            !o.refresh,
            !o.redraw,
            o.commits@.len() == 0,
    {
        Outcome { handled: false, commits: Vec::new(), refresh: false, redraw: false }
    }

    /// Eaten, repaint only (keys that move the highlight or turn the page).
    pub fn redrawn() -> (o: Self)
        ensures
            o.handled,
            !o.refresh,
            o.redraw,
            o.commits@.len() == 0,
    {
        Outcome { handled: true, commits: Vec::new(), refresh: false, redraw: true }
    }

    /// Commits `text`; the rest of the buffer keeps composing.
    pub fn committed(text: String) -> (o: Self)
        ensures
            o.handled,
            o.refresh,
            !o.redraw,
            o.commits@ == seq![text],
    {
        let mut outcome = Outcome::consumed();
        outcome.commits.push(text);
        outcome
    }
}

impl Default for Outcome {
    fn default() -> (o: Self)
        ensures
            !o.handled,
            !o.refresh,
            !o.redraw,
            o.commits@.len() == 0,
    {
        Outcome::passed()
    }
}

/// Editing and navigation keys.
#[derive(Debug, Clone, Copy, PartialEq, Eq, Structural)]
pub enum CommandKey {
    Backspace,
    Delete,
    Enter,
    Escape,
    Tab,
    Up,
    Down,
    Left,
    Right,
    Home,
    End,
    PageUp,
    PageDown,
}

// ---------------------------------------------------------------------------
// ASCII classes, as std defines them for `char`.

pub open spec fn in_range(c: char, low: char, high: char) -> bool {
    (low as u32) <= (c as u32) && (c as u32) <= (high as u32)
}

pub open spec fn is_lower(c: char) -> bool {
    in_range(c, 'a', 'z')
}

pub open spec fn is_upper(c: char) -> bool {
    in_range(c, 'A', 'Z')
}

pub open spec fn is_digit(c: char) -> bool {
    in_range(c, '0', '9')
}

pub open spec fn is_alphabetic(c: char) -> bool {
    is_lower(c) || is_upper(c)
}

/// `!`..`/`, `:`..`@`, `[`..`` ` ``, `{`..`~`.
pub open spec fn is_punctuation(c: char) -> bool {
    in_range(c, '!', '/') || in_range(c, ':', '@') || in_range(c, '[', '`') || in_range(c, '{', '~')
}

/// `!`..`~`.
pub open spec fn is_graphic(c: char) -> bool {
    in_range(c, '!', '~')
}

/// The digits that pick a candidate: `1`..`9`.
pub open spec fn is_pick_digit(c: char) -> bool {
    in_range(c, '1', '9')
}

/// The page slot a pick digit names (`1` is slot 0).
pub open spec fn pick_slot(c: char) -> int {
    (c as u32) - ('1' as u32)
}

fn ascii_in(c: char, low: char, high: char) -> (r: bool)
    ensures
        r == in_range(c, low, high),
{
    (low as u32) <= (c as u32) && (c as u32) <= (high as u32)
}

fn ascii_lowercase(c: char) -> (r: bool)
    ensures
        r == is_lower(c),
{
    ascii_in(c, 'a', 'z')
}

fn ascii_uppercase(c: char) -> (r: bool)
    ensures
        r == is_upper(c),
{
    ascii_in(c, 'A', 'Z')
}

fn ascii_digit(c: char) -> (r: bool)
    ensures
        r == is_digit(c),
{
    ascii_in(c, '0', '9')
}

fn ascii_punctuation(c: char) -> (r: bool)
    ensures
        r == is_punctuation(c),
{
    ascii_in(c, '!', '/') || ascii_in(c, ':', '@') || ascii_in(c, '[', '`') || ascii_in(c, '{', '~')
}

fn ascii_graphic(c: char) -> (r: bool)
    ensures
        r == is_graphic(c),
{
    ascii_in(c, '!', '~')
}

// ---------------------------------------------------------------------------
// The decisions, as plan models over the engine snapshot and the session.

/// Append `c` to the buffer.
pub open spec fn push_model(c: char) -> PlanModel {
    plan(seq![Effect::Push(c)], true, true, false)
}

/// Nothing done, key passed on.
pub open spec fn passed_model() -> PlanModel {
    plan(seq![], false, false, false)
}

/// Nothing done, key eaten, buffer considered changed.
pub open spec fn consumed_model() -> PlanModel {
    plan(seq![], true, true, false)
}

/// Commit the raw buffer: eaten with a refresh when there was something to commit.
pub open spec fn commit_raw_model(composing: bool) -> PlanModel {
    plan(seq![Effect::CommitRaw], composing, composing, false)
}

/// Commit candidate `index`, or the raw buffer when there is no such candidate.
pub open spec fn commit_index_model(composing: bool, len: int, index: int) -> PlanModel {
    if 0 <= index < len {
        plan(seq![Effect::CommitCandidate(index as usize)], true, true, false)
    } else {
        commit_raw_model(composing)
    }
}

/// A page key: repaint only; a page turn that happened is reported to the engine.
pub open spec fn page_turn_model(turned: bool) -> PlanModel {
    plan(if turned { seq![Effect::NotePageTurn] } else { seq![] }, true, false, true)
}

/// Whether turning `delta` pages from the highlight changes the page.
pub open spec fn turns(highlight: int, len: int, delta: int, page_size: int) -> bool {
    target_page(highlight, len, delta, page_size) != page_of(highlight, page_size)
}

/// The highlight after a page key.
pub open spec fn turned_highlight(highlight: int, len: int, delta: int, page_size: int) -> int {
    if turns(highlight, len, delta, page_size) {
        target_page(highlight, len, delta, page_size) * page_size
    } else {
        highlight
    }
}

/// Run `first`, then pass the key on after telling the engine about `c`.
pub open spec fn then_pass(first: PlanModel, c: char) -> PlanModel {
    first.then_effects(seq![Effect::NotePassthrough(c)]).handled_as(false)
}

/// Chinese mode: the characters that go into the composition buffer.
pub open spec fn enters_buffer(v: EngineView, page_keys: (char, char), c: char) -> bool {
    let composing = v.composing;
    let question = composing && v.question_mode;
    let expression = composing && v.expression_mode;
    let raw = composing && v.raw_mode;
    let unicode = question && v.unicode_entry;
    let page_key = c == page_keys.0 || c == page_keys.1;
    ||| is_lower(c)
    ||| (composing && c == '\'')
    ||| (composing && c == ';' && v.takes_semicolon)
    ||| (expression && v.expression_char)
    ||| (raw && is_graphic(c))
    ||| (unicode && (is_digit(c) || c == '+'))
    ||| (composing && !question && c == '-' && !page_key)
    ||| (composing && !question && !expression && is_punctuation(c) && !page_key)
}

/// A printable key in English mode: plan and highlight afterwards.
#[verifier::opaque]
pub open spec fn english_char_model(
    v: EngineView,
    highlight: int,
    len: int,
    page_size: int,
    page_keys: (char, char),
    english_candidates: bool,
    c: char,
) -> (PlanModel, int) {
    let composing = v.composing;
    let pass_first = if composing { commit_raw_model(true) } else { passed_model() };
    if !english_candidates {
        (then_pass(pass_first, c), highlight)
    } else if composing && is_pick_digit(c) && slot_index(highlight, len, pick_slot(c), page_size) is Some {
        (commit_index_model(true, len, slot_index(highlight, len, pick_slot(c), page_size)->0 as int), highlight)
    } else if is_alphabetic(c) || (composing && (is_digit(c) || c == '_' || c == '\'' || c == '-')) {
        (push_model(c), highlight)
    } else if composing && c == page_keys.0 {
        (page_turn_model(turns(highlight, len, -1, page_size)), turned_highlight(highlight, len, -1, page_size))
    } else if composing && c == page_keys.1 {
        (page_turn_model(turns(highlight, len, 1, page_size)), turned_highlight(highlight, len, 1, page_size))
    } else if composing && c == ' ' {
        (then_pass(commit_index_model(true, len, highlight), c), highlight)
    } else {
        (then_pass(pass_first, c), highlight)
    }
}

/// A printable key: plan and highlight afterwards.
#[verifier::opaque]
pub open spec fn char_model(
    v: EngineView,
    highlight: int,
    len: int,
    page_size: int,
    page_keys: (char, char),
    english_candidates: bool,
    c: char,
) -> (PlanModel, int) {
    let composing = v.composing;
    let question = composing && v.question_mode;
    let raw = composing && v.raw_mode;
    if !composing && c == '?' && v.takes_question_mark {
        (plan(seq![Effect::SetEnglishMode(false), Effect::Push('?')], true, true, false), highlight)
    } else if v.english_mode {
        english_char_model(v, highlight, len, page_size, page_keys, english_candidates, c)
    } else if !composing && v.takes_mode_letter {
        (push_model(c), highlight)
    } else if enters_buffer(v, page_keys, c) {
        (push_model(c), highlight)
    } else if raw && c == ' ' {
        (then_pass(commit_index_model(true, len, highlight), c), highlight)
    } else if composing && v.bare_question {
        let restored = plan(seq![Effect::RestoreBareQuestion(false)], true, true, false);
        (if c == ' ' { restored } else { restored.then_punctuate(c) }, highlight)
    } else if is_upper(c) {
        if v.shift_letter_compose {
            (push_model(c), highlight)
        } else {
            (then_pass(if composing { commit_raw_model(true) } else { passed_model() }, c), highlight)
        }
    } else if composing {
        if c == ' ' {
            (commit_index_model(true, len, highlight), highlight)
        } else if is_pick_digit(c) {
            match slot_index(highlight, len, pick_slot(c), page_size) {
                Some(index) => (commit_index_model(true, len, index as int), highlight),
                None => (if !question { push_model(c) } else { consumed_model() }, highlight),
            }
        } else if c == page_keys.0 {
            (page_turn_model(turns(highlight, len, -1, page_size)), turned_highlight(highlight, len, -1, page_size))
        } else if c == page_keys.1 {
            (page_turn_model(turns(highlight, len, 1, page_size)), turned_highlight(highlight, len, 1, page_size))
        } else {
            (commit_index_model(true, len, highlight).then_punctuate(c), highlight)
        }
    } else {
        (passed_model().then_punctuate(c), highlight)
    }
}

/// An editing or navigation key: plan and highlight afterwards.
#[verifier::opaque]
pub open spec fn command_model(
    v: EngineView,
    highlight: int,
    len: int,
    page_size: int,
    key: CommandKey,
) -> (PlanModel, int) {
    if !v.composing {
        (match key {
            CommandKey::Backspace => plan(seq![Effect::NoteBackspace], false, false, false),
            CommandKey::Enter => plan(seq![Effect::NotePassthrough('\n')], false, false, false),
            _ => passed_model(),
        }, highlight)
    } else if key != CommandKey::Escape && v.bare_question {
        (plan(seq![Effect::RestoreBareQuestion(v.english_mode)], key == CommandKey::Enter, true, false), highlight)
    } else {
        match key {
            CommandKey::Backspace => (plan(seq![Effect::Backspace], true, true, false), highlight),
            CommandKey::Delete => (plan(seq![Effect::DeleteForward], true, true, false), highlight),
            CommandKey::Enter => (commit_raw_model(true), highlight),
            CommandKey::Escape => (plan(seq![Effect::Clear], true, true, false), highlight),
            CommandKey::Tab => if v.english_mode {
                (commit_index_model(true, len, highlight), highlight)
            } else {
                (page_turn_model(turns(highlight, len, 1, page_size)), turned_highlight(highlight, len, 1, page_size))
            },
            CommandKey::Up => (plan(seq![], true, false, true), moved_highlight(highlight, len, -1)),
            CommandKey::Down => (plan(seq![], true, false, true), moved_highlight(highlight, len, 1)),
            CommandKey::Left => (plan(seq![Effect::CursorLeft], true, true, false), highlight),
            CommandKey::Right => (plan(seq![Effect::CursorRight], true, true, false), highlight),
            CommandKey::Home => (plan(seq![Effect::CursorHome], true, true, false), highlight),
            CommandKey::End => (plan(seq![Effect::CursorEnd], true, true, false), highlight),
            CommandKey::PageUp => (page_turn_model(turns(highlight, len, -1, page_size)), turned_highlight(highlight, len, -1, page_size)),
            CommandKey::PageDown => (page_turn_model(turns(highlight, len, 1, page_size)), turned_highlight(highlight, len, 1, page_size)),
        }
    }
}

/// How the engine's full-width answer for `c` ends a key.
pub open spec fn punctuation_model(punctuated: bool, c: char) -> PlanModel {
    if punctuated {
        plan(seq![], true, true, false)
    } else {
        plan(seq![Effect::NotePassthrough(c)], false, false, false)
    }
}

// ---------------------------------------------------------------------------
// Plan builders.

fn plan_of(effects: Vec<Effect>, outcome: Outcome) -> (p: Plan)
    ensures
        p.effects@ == effects@,
        p.outcome == outcome,
        p.punctuate is None,
{
    Plan { effects, outcome, punctuate: None }
}

fn one(effect: Effect) -> (v: Vec<Effect>)
    ensures
        v@ == seq![effect],
{
    let mut v = Vec::new();
    v.push(effect);
    v
}

fn push_plan(c: char) -> (p: Plan)
    ensures
        p@ == push_model(c),
        p.fresh(),
{
    plan_of(one(Effect::Push(c)), Outcome::consumed())
}

fn page_turn_plan(session: &mut Session, delta: isize, page_size: usize) -> (p: Plan)
    ensures
        p@ == page_turn_model(turns(old(session).highlight() as int, old(session).len() as int, delta as int, page_size as int)),
        p.fresh(),
        final(session).highlight() == turned_highlight(old(session).highlight() as int, old(session).len() as int, delta as int, page_size as int),
        final(session).texts() == old(session).texts(),
        final(session).len() == old(session).len(),
        final(session).preedit_text() == old(session).preedit_text(),
        final(session).preedit_cursor_pos() == old(session).preedit_cursor_pos(),
{
    let effects = if session.turn_page(delta, page_size) {
        one(Effect::NotePageTurn)
    } else {
        Vec::new()
    };
    plan_of(effects, Outcome::redrawn())
}

/// Run `first`, then pass the key on after telling the engine about `c`.
fn pass_after(first: Plan, c: char) -> (p: Plan)
    requires
        first.punctuate is None,
    ensures
        p@ == then_pass(first@, c),
        p.outcome.commits == first.outcome.commits,
{
    let mut p = first;
    p.effects.push(Effect::NotePassthrough(c));
    p.outcome.handled = false;
    p
}

/// The same plan, ending with a punctuation request for `c`.
fn punctuate_after(first: Plan, c: char) -> (p: Plan)
    ensures
        p@ == first@.then_punctuate(c),
        p.outcome.commits == first.outcome.commits,
{
    let mut p = first;
    p.punctuate = Some(c);
    p
}

/// Takes the buffer's raw text and commits it; with an empty buffer it only passes.
pub fn commit_raw(view: &EngineView) -> (p: Plan)
    ensures
        p@ == commit_raw_model(view.composing),
        p.fresh(),
{
    let outcome = if view.composing { Outcome::consumed() } else { Outcome::passed() };
    plan_of(one(Effect::CommitRaw), outcome)
}

/// Commits candidate `index`; without such a candidate, the raw buffer.
/// The rest of the buffer keeps composing.
pub fn commit_index(view: &EngineView, index: usize, session: &Session) -> (p: Plan)
    ensures
        p@ == commit_index_model(view.composing, session.len() as int, index as int),
        p.fresh(),
{
    match session.candidate(index) {
        Some(_) => plan_of(one(Effect::CommitCandidate(index)), Outcome::consumed()),
        None => commit_raw(view),
    }
}

fn commit_highlighted(view: &EngineView, session: &Session) -> (p: Plan)
    ensures
        p@ == commit_index_model(view.composing, session.len() as int, session.highlight() as int),
        p.fresh(),
{
    commit_index(view, session.highlighted(), session)
}

/// Settles the engine's full-width answer for `c`: the punctuation is committed, or,
/// without one, the key goes to the application.
pub fn punctuate_or_pass(punctuation: Option<String>, c: char) -> (p: Plan)
    ensures
        p@ == punctuation_model(punctuation is Some, c),
        punctuation matches Some(text) ==> p.outcome.commits@ == seq![text],
        punctuation is None ==> p.outcome.commits@.len() == 0,
{
    match punctuation {
        Some(text) => plan_of(Vec::new(), Outcome::committed(text)),
        None => plan_of(one(Effect::NotePassthrough(c)), Outcome::passed()),
    }
}

/// Joins a key's outcome with the outcome of its closing punctuation step:
/// commits in order, eaten as the punctuation step says, repainted if either asks.
pub fn then_follow(first: Outcome, follow: Outcome) -> (o: Outcome)
    ensures
        o.commits@ == first.commits@ + follow.commits@,
        o.handled == follow.handled,
        o.refresh == (first.refresh || follow.refresh),
        o.redraw == (first.redraw || follow.redraw),
{
    let mut o = first;
    let mut rest = follow.commits;
    o.commits.append(&mut rest);
    o.handled = follow.handled;
    o.refresh = o.refresh || follow.refresh;
    o.redraw = o.redraw || follow.redraw;
    o
}

/// A printable key (after modifiers). `c` is the character the key produced; its case
/// carries the Shift state.
pub fn handle_char(
    view: &EngineView,
    session: &mut Session,
    page_size: usize,
    page_keys: (char, char),
    english_candidates: bool,
    c: char,
) -> (p: Plan)
    ensures
        p@ == char_model(*view, old(session).highlight() as int, old(session).len() as int, page_size as int, page_keys, english_candidates, c).0,
        final(session).highlight() == char_model(*view, old(session).highlight() as int, old(session).len() as int, page_size as int, page_keys, english_candidates, c).1,
        p.fresh(),
        final(session).texts() == old(session).texts(),
        final(session).len() == old(session).len(),
        final(session).preedit_text() == old(session).preedit_text(),
        final(session).preedit_cursor_pos() == old(session).preedit_cursor_pos(),
{
    reveal(char_model);
    let composing = view.composing;
    let (page_previous, page_next) = page_keys;
    // `?` on an empty buffer starts a question (English mode is left first).
    if !composing && c == '?' && view.takes_question_mark {
        let mut effects = one(Effect::SetEnglishMode(false));
        effects.push(Effect::Push('?'));
        return plan_of(effects, Outcome::consumed());
    }
    if view.english_mode {
        return handle_english_char(view, session, page_size, page_keys, english_candidates, c);
    }
    // Shuangpin: shifted V / U start the expression / question mode.
    if !composing && view.takes_mode_letter {
        return push_plan(c);
    }
    let question = composing && view.question_mode;
    let expression = composing && view.expression_mode;
    let raw = composing && view.raw_mode;
    let unicode = question && view.unicode_entry;
    let page_key = c == page_previous || c == page_next;
    let enters = ascii_lowercase(c)
        || (composing && c == '\'')
        || (composing && c == ';' && view.takes_semicolon)
        || (expression && view.expression_char)
        || (raw && ascii_graphic(c))
        || (unicode && (ascii_digit(c) || c == '+'))
        || (composing && !question && c == '-' && !page_key)
        || (composing && !question && !expression && ascii_punctuation(c) && !page_key);
    if enters {
        return push_plan(c);
    }
    // A space in a raw segment commits it, and the space goes to the application too.
    if raw && c == ' ' {
        return pass_after(commit_highlighted(view, session), c);
    }
    // A lone `?` followed by another key becomes a plain question mark.
    if composing && view.bare_question {
        let restored = plan_of(one(Effect::RestoreBareQuestion(false)), Outcome::consumed());
        if c == ' ' {
            return restored;
        }
        return punctuate_after(restored, c);
    }
    // Shift-typed capitals: commit the pinyin as typed and pass the letter on,
    // unless they are configured to compose.
    if ascii_uppercase(c) {
        if view.shift_letter_compose {
            return push_plan(c);
        }
        let first = if composing { commit_raw(view) } else { plan_of(Vec::new(), Outcome::passed()) };
        return pass_after(first, c);
    }
    if composing {
        if c == ' ' {
            return commit_highlighted(view, session);
        }
        if ascii_in(c, '1', '9') {
            let offset = ((c as u32) - ('1' as u32)) as usize;
            match session.index_on_page(offset, page_size) {
                Some(index) => return commit_index(view, index, session),
                None => {
                    // No such slot on this page: the digit becomes buffer content
                    // (not inside a question).
                    if !question {
                        return push_plan(c);
                    }
                    return plan_of(Vec::new(), Outcome::consumed());
                },
            }
        }
        if c == page_previous {
            return page_turn_plan(session, -1, page_size);
        }
        if c == page_next {
            return page_turn_plan(session, 1, page_size);
        }
        // Anything else commits the highlighted candidate, then is handled as if
        // nothing were being composed (usually punctuation).
        return punctuate_after(commit_highlighted(view, session), c);
    }
    punctuate_after(plan_of(Vec::new(), Outcome::passed()), c)
}

/// English mode: letters and `_ ' -` compose English candidates, digits pick, page keys
/// turn; space commits the highlighted word and is passed on; other keys commit the
/// letters as typed and are passed on.
fn handle_english_char(
    view: &EngineView,
    session: &mut Session,
    page_size: usize,
    page_keys: (char, char),
    english_candidates: bool,
    c: char,
) -> (p: Plan)
    requires
        view.english_mode,
    ensures
        (p@, final(session).highlight() as int) == english_char_model(*view, old(session).highlight() as int, old(session).len() as int, page_size as int, page_keys, english_candidates, c),
        p.fresh(),
        final(session).texts() == old(session).texts(),
        final(session).len() == old(session).len(),
        final(session).preedit_text() == old(session).preedit_text(),
        final(session).preedit_cursor_pos() == old(session).preedit_cursor_pos(),
{
    reveal(english_char_model);
    let composing = view.composing;
    let (page_previous, page_next) = page_keys;
    // English candidates off: pure pass-through, letters typed so far committed first.
    if !english_candidates {
        let first = if composing { commit_raw(view) } else { plan_of(Vec::new(), Outcome::passed()) };
        return pass_after(first, c);
    }
    if composing && ascii_in(c, '1', '9') {
        let offset = ((c as u32) - ('1' as u32)) as usize;
        if let Some(index) = session.index_on_page(offset, page_size) {
            return commit_index(view, index, session);
        }
    }
    if ascii_lowercase(c) || ascii_uppercase(c)
        || (composing && (ascii_digit(c) || c == '_' || c == '\'' || c == '-'))
    {
        return push_plan(c);
    }
    if composing && c == page_previous {
        return page_turn_plan(session, -1, page_size);
    }
    if composing && c == page_next {
        return page_turn_plan(session, 1, page_size);
    }
    let first = if composing && c == ' ' {
        commit_highlighted(view, session)
    } else if composing {
        commit_raw(view)
    } else {
        plan_of(Vec::new(), Outcome::passed())
    };
    pass_after(first, c)
}

/// An editing or navigation key. While composing, keys without a meaning here are
/// eaten so that the application does not move its cursor under the preedit.
pub fn handle_command(
    view: &EngineView,
    session: &mut Session,
    page_size: usize,
    key: CommandKey,
) -> (p: Plan)
    ensures
        (p@, final(session).highlight() as int) == command_model(*view, old(session).highlight() as int, old(session).len() as int, page_size as int, key),
        p.fresh(),
        final(session).texts() == old(session).texts(),
        final(session).len() == old(session).len(),
        final(session).preedit_text() == old(session).preedit_text(),
        final(session).preedit_cursor_pos() == old(session).preedit_cursor_pos(),
{
    reveal(command_model);
    if !view.composing {
        // Erasing committed text right after a commit tells the engine the pick was wrong.
        if key == CommandKey::Backspace {
            return plan_of(one(Effect::NoteBackspace), Outcome::passed());
        } else if key == CommandKey::Enter {
            return plan_of(one(Effect::NotePassthrough('\n')), Outcome::passed());
        }
        return plan_of(Vec::new(), Outcome::passed());
    }
    if key != CommandKey::Escape && view.bare_question {
        // A lone `?`: it becomes the question mark; Enter is eaten (it means "commit
        // this ?"), other keys go on to the application.
        let mut outcome = Outcome::consumed();
        outcome.handled = key == CommandKey::Enter;
        return plan_of(one(Effect::RestoreBareQuestion(view.english_mode)), outcome);
    }
    match key {
        CommandKey::Backspace => plan_of(one(Effect::Backspace), Outcome::consumed()),
        CommandKey::Delete => plan_of(one(Effect::DeleteForward), Outcome::consumed()),
        CommandKey::Enter => commit_raw(view),
        CommandKey::Escape => plan_of(one(Effect::Clear), Outcome::consumed()),
        CommandKey::Tab => {
            // English mode: Tab takes the highlighted word; Chinese mode: next page.
            if view.english_mode {
                commit_highlighted(view, session)
            } else {
                page_turn_plan(session, 1, page_size)
            }
        },
        CommandKey::Up => {
            session.move_highlight(-1);
            plan_of(Vec::new(), Outcome::redrawn())
        },
        CommandKey::Down => {
            session.move_highlight(1);
            plan_of(Vec::new(), Outcome::redrawn())
        },
        CommandKey::Left => plan_of(one(Effect::CursorLeft), Outcome::consumed()),
        CommandKey::Right => plan_of(one(Effect::CursorRight), Outcome::consumed()),
        CommandKey::Home => plan_of(one(Effect::CursorHome), Outcome::consumed()),
        CommandKey::End => plan_of(one(Effect::CursorEnd), Outcome::consumed()),
        CommandKey::PageUp => page_turn_plan(session, -1, page_size),
        CommandKey::PageDown => page_turn_plan(session, 1, page_size),
    }
}

} // verus!
