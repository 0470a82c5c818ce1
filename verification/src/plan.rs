//! How the key handlers talk to the composition engine.
//!
//! The engine is an outside service. Before a key is handled, the caller takes an
//! [`EngineView`]: the answers to every question the handlers may ask of the engine
//! for this key. The handlers answer with a [`Plan`]: the engine operations to
//! perform, in order, and the key's [`Outcome`](crate::keys::Outcome) flags. Operations that yield text
//! to commit append it to the outcome's commits as they run. A plan may end by
//! asking the engine to convert one character to full-width punctuation; what the
//! engine answers is settled by [`crate::keys::punctuate_or_pass`] and merged by
//! [`crate::keys::then_follow`].

use vstd::prelude::*;

use crate::keys::Outcome;

verus! {

/// A snapshot of the engine, taken for the key at hand.
#[derive(Debug, Clone, Copy)]
pub struct EngineView {
    /// The composition buffer holds typed keys (taking its raw text yields them).
    pub composing: bool,
    /// The built-in English mode is on.
    pub english_mode: bool,
    /// A `?` typed on an empty buffer starts the question mode.
    pub takes_question_mark: bool,
    /// The key's character starts an expression / question mode on an empty buffer.
    pub takes_mode_letter: bool,
    /// The buffer is in question mode.
    pub question_mode: bool,
    /// The buffer is in expression mode.
    pub expression_mode: bool,
    /// The buffer is in raw (direct English) mode.
    pub raw_mode: bool,
    /// The question mode takes a Unicode code point.
    pub unicode_entry: bool,
    /// `;` is a final of the current shuangpin scheme here.
    pub takes_semicolon: bool,
    /// The key's character can be part of an expression.
    pub expression_char: bool,
    /// The buffer holds nothing but a lone `?`.
    pub bare_question: bool,
    /// Shift-typed capitals go into the buffer instead of passing through.
    pub shift_letter_compose: bool,
}

/// One operation on the engine.
#[derive(Debug, Clone, Copy, PartialEq, Eq, Structural)]
pub enum Effect {
    /// Turn the English mode on or off.
    SetEnglishMode(bool),
    /// Append a character to the composition buffer.
    Push(char),
    /// Tell the engine a character went to the application.
    NotePassthrough(char),
    /// Tell the engine the user turned a candidate page.
    NotePageTurn,
    /// Tell the engine the user erased text in the application.
    NoteBackspace,
    /// Erase the character before the buffer cursor.
    Backspace,
    /// Erase the character after the buffer cursor.
    DeleteForward,
    /// Empty the buffer.
    Clear,
    /// Move the buffer cursor one step left.
    CursorLeft,
    /// Move the buffer cursor one step right.
    CursorRight,
    /// Move the buffer cursor to the start.
    CursorHome,
    /// Move the buffer cursor to the end.
    CursorEnd,
    /// Commit the session candidate at this absolute index; its text is committed.
    CommitCandidate(usize),
    /// Take the buffer's raw text; when not empty it is committed.
    CommitRaw,
    /// Turn the lone `?` back into a question mark (half-width when the flag is set)
    /// and empty the buffer; the mark is committed.
    RestoreBareQuestion(bool),
    /// Forget the session candidate at this absolute index; the engine's message
    /// becomes the notice shown beside the pinyin.
    ForgetCandidate(usize),
}

/// The engine operations for a key and its outcome.
#[derive(Debug)]
pub struct Plan {
    /// Operations in order.
    pub effects: Vec<Effect>,
    /// Flags of the outcome; its commits are filled by the operations.
    pub outcome: Outcome,
    /// Finally ask the engine for the full-width form of this character.
    pub punctuate: Option<char>,
}

/// The mathematical content of a [`Plan`].
#[verifier::ext_equal]
pub ghost struct PlanModel {
    pub effects: Seq<Effect>,
    pub handled: bool,
    pub refresh: bool,
    pub redraw: bool,
    pub punctuate: Option<char>,
}

impl View for Plan {
    type V = PlanModel;

    open spec fn view(&self) -> PlanModel {
        PlanModel {
            effects: self.effects@,
            handled: self.outcome.handled,
            refresh: self.outcome.refresh,
            redraw: self.outcome.redraw,
            punctuate: self.punctuate,
        }
    }
}

impl Plan {
    /// A plan is issued with no commits yet: those come from its operations.
    pub open spec fn fresh(&self) -> bool {
        self.outcome.commits@.len() == 0
    }
}

/// Builds a plan model.
pub open spec fn plan(
    effects: Seq<Effect>,
    handled: bool,
    refresh: bool,
    redraw: bool,
) -> PlanModel {
    PlanModel { effects, handled, refresh, redraw, punctuate: None }
}

impl PlanModel {
    /// The same operations, then `tail`.
    pub open spec fn then_effects(self, tail: Seq<Effect>) -> PlanModel {
        PlanModel { effects: self.effects + tail, ..self }
    }

    /// The same plan with other `handled`.
    pub open spec fn handled_as(self, handled: bool) -> PlanModel {
        PlanModel { handled, ..self }
    }

    /// The same plan, ending with a punctuation request for `c`.
    pub open spec fn then_punctuate(self, c: char) -> PlanModel {
        PlanModel { punctuate: Some(c), ..self }
    }
}

} // verus!
