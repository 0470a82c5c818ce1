//! Candidate session: the candidates of the current query, the highlighted
//! (absolute) index and the inline preedit. Paging is done by the panel with
//! `page_size` candidates per page; digits pick on the highlighted page.

use vstd::prelude::*;

verus! {

/// One candidate as the session needs it: the text shown in the lookup table.
#[derive(Debug)]
pub struct Candidate {
    pub text: String,
}

/// Candidates and highlight of one query round.
#[derive(Debug)]
pub struct Session {
    candidates: Vec<Candidate>,
    highlighted: usize,
    preedit: String,
    preedit_cursor: usize,
}

/// Page size as used for page arithmetic: zero counts as one.
pub open spec fn effective_page_size(page_size: int) -> int {
    if page_size <= 0 { 1 } else { page_size }
}

/// Number of pages of `len` candidates (at least one, also when empty).
pub open spec fn page_count(len: int, page_size: int) -> int {
    let p = effective_page_size(page_size);
    if len <= 0 { 1 } else { (len - 1) / p + 1 }
}

/// The page holding absolute index `index`.
pub open spec fn page_of(index: int, page_size: int) -> int {
    index / effective_page_size(page_size)
}

/// `value` clamped into `[low, high]` (`low <= high`).
pub open spec fn clamp(value: int, low: int, high: int) -> int {
    if value < low { low } else if value > high { high } else { value }
}

impl Session {
    /// The highlight points at a candidate, or is 0 when there are none.
    #[verifier::type_invariant]
    spec fn highlight_in_range(self) -> bool {
        if self.candidates@.len() == 0 {
            self.highlighted == 0
        } else {
            self.highlighted < self.candidates@.len()
        }
    }

    pub open spec fn len(self) -> nat {
        self.texts().len()
    }

    pub closed spec fn texts(self) -> Seq<Seq<char>> {
        self.candidates@.map_values(|c: Candidate| c.text@)
    }

    pub closed spec fn highlight(self) -> nat {
        self.highlighted as nat
    }

    pub closed spec fn preedit_text(self) -> Seq<char> {
        self.preedit@
    }

    pub closed spec fn preedit_cursor_pos(self) -> nat {
        self.preedit_cursor as nat
    }

    /// An empty session.
    pub fn new() -> (s: Self)
        ensures
            s.len() == 0,
            s.highlight() == 0,
            s.preedit_text() == Seq::<char>::empty(),
            s.preedit_cursor_pos() == 0,
    {
        Session { candidates: Vec::new(), highlighted: 0, preedit: String::new(), preedit_cursor: 0 }
    }

    /// A new query round: new candidates and preedit, the first candidate highlighted.
    pub fn reset(&mut self, preedit: String, preedit_cursor: usize, candidates: Vec<Candidate>)
        ensures
            final(self).texts() == candidates@.map_values(|c: Candidate| c.text@),
            final(self).len() == candidates@.len(),
            final(self).highlight() == 0,
            final(self).preedit_text() == preedit@,
            final(self).preedit_cursor_pos() == preedit_cursor,
    {
        *self = Session { candidates, highlighted: 0, preedit, preedit_cursor };
    }

    /// Empties the session (the candidate window closes).
    pub fn clear(&mut self)
        ensures
            final(self).len() == 0,
            final(self).highlight() == 0,
            final(self).preedit_text() == Seq::<char>::empty(),
            final(self).preedit_cursor_pos() == 0,
    {
        *self = Session::new();
    }

    /// The candidates of this round.
    pub fn candidates(&self) -> (r: &[Candidate])
        ensures
            r@.map_values(|c: Candidate| c.text@) == self.texts(),
            r@.len() == self.len(),
    {
        self.candidates.as_slice()
    }

    /// The highlighted absolute index.
    pub fn highlighted(&self) -> (r: usize)
        ensures
            r == self.highlight(),
            self.len() == 0 ==> r == 0,
            self.len() > 0 ==> r < self.len(),
    {
        proof {
            use_type_invariant(self);
        }
        self.highlighted
    }

    /// The inline preedit and its cursor (in characters).
    pub fn preedit(&self) -> (r: (&str, usize))
        ensures
            r.0@ == self.preedit_text(),
            r.1 == self.preedit_cursor_pos(),
    {
        (self.preedit.as_str(), self.preedit_cursor)
    }

    /// The candidate at absolute `index`.
    pub fn candidate(&self, index: usize) -> (r: Option<&Candidate>)
        ensures
            index < self.len() <==> r is Some,
            r matches Some(c) ==> c.text@ == self.texts()[index as int],
    {
        if index < self.candidates.len() {
            Some(&self.candidates[index])
        } else {
            None
        }
    }

    /// The page holding the highlight.
    pub fn page(&self, page_size: usize) -> (r: usize)
        ensures
            r == page_of(self.highlight() as int, page_size as int),
    {
        let p: usize = if page_size == 0 { 1 } else { page_size };
        self.highlighted / p
    }

    /// Absolute index of slot `offset` on the highlighted page; `None` when the page
    /// has no such slot.
    pub fn index_on_page(&self, offset: usize, page_size: usize) -> (r: Option<usize>)
        ensures
            r == slot_index(self.highlight() as int, self.len() as int, offset as int, page_size as int),
    {
        proof {
            use_type_invariant(self);
        }
        if offset >= page_size {
            return None;
        }
        let page = self.page(page_size);
        proof {
            lemma_page_start(self.highlighted as int, page_size as int);
        }
        let base = page * page_size;
        match base.checked_add(offset) {
            Some(index) => {
                if index < self.candidates.len() {
                    Some(index)
                } else {
                    None
                }
            },
            None => {
                // The sum overflowed, so it lies past every candidate.
                let len = self.candidates.len();
                assert(base + offset > len);
                None
            },
        }
    }

    /// Moves the highlight by `delta`, clamped to the candidates. Returns whether it moved.
    pub fn move_highlight(&mut self, delta: isize) -> (moved: bool)
        ensures
            final(self).texts() == old(self).texts(),
            final(self).len() == old(self).len(),
            final(self).preedit_text() == old(self).preedit_text(),
            final(self).preedit_cursor_pos() == old(self).preedit_cursor_pos(),
            final(self).highlight() == moved_highlight(old(self).highlight() as int, old(self).len() as int, delta as int),
            moved == (final(self).highlight() != old(self).highlight()),
    {
        proof {
            use_type_invariant(&*self);
        }
        let len = self.candidates.len();
        if len == 0 {
            return false;
        }
        let last = len - 1;
        let current = self.highlighted;
        let next: usize = if delta >= 0 {
            let d = delta as usize;
            if d >= last - current { last } else { current + d }
        } else {
            let d = (-(delta + 1)) as usize + 1;
            if d >= current { 0 } else { current - d }
        };
        if next == current {
            return false;
        }
        self.highlighted = next;
        true
    }

    /// Turns the page by `delta`, landing on the first slot of the new page; stays put at
    /// the first and the last page. Returns whether the page changed.
    pub fn turn_page(&mut self, delta: isize, page_size: usize) -> (turned: bool)
        ensures
            final(self).texts() == old(self).texts(),
            final(self).len() == old(self).len(),
            final(self).preedit_text() == old(self).preedit_text(),
            final(self).preedit_cursor_pos() == old(self).preedit_cursor_pos(),
            turned == (target_page(old(self).highlight() as int, old(self).len() as int, delta as int, page_size as int)
                != page_of(old(self).highlight() as int, page_size as int)),
            turned ==> final(self).highlight() == target_page(old(self).highlight() as int, old(self).len() as int, delta as int, page_size as int) * page_size,
            !turned ==> final(self).highlight() == old(self).highlight(),
    {
        proof {
            use_type_invariant(&*self);
        }
        let p: usize = if page_size == 0 { 1 } else { page_size };
        let len = self.candidates.len();
        let pages: usize = if len == 0 { 1 } else { (len - 1) / p + 1 };
        let current = self.highlighted / p;
        let last = pages - 1;
        proof {
            if len > 0 {
                vstd::arithmetic::div_mod::lemma_div_is_ordered(self.highlighted as int, len - 1, p as int);
            }
        }
        let next: usize = if delta >= 0 {
            let d = delta as usize;
            if d >= last - current { last } else { current + d }
        } else {
            let d = (-(delta + 1)) as usize + 1;
            if d >= current { 0 } else { current - d }
        };
        if next == current {
            return false;
        }
        proof {
            if page_size > 0 {
                lemma_page_fits(next as int, len as int, page_size as int);
            }
        }
        self.highlighted = next * page_size;
        true
    }
}

/// Absolute index of slot `offset` on the page holding `highlight`, if that slot exists.
pub open spec fn slot_index(highlight: int, len: int, offset: int, page_size: int) -> Option<usize> {
    let index = page_of(highlight, page_size) * page_size + offset;
    if offset < page_size && index < len {
        Some(index as usize)
    } else {
        None
    }
}

/// Where the highlight lands after moving by `delta` over `len` candidates.
pub open spec fn moved_highlight(highlight: int, len: int, delta: int) -> int {
    if len <= 0 { highlight } else { clamp(highlight + delta, 0, len - 1) }
}

/// The page reached by turning `delta` pages from the highlight's page.
pub open spec fn target_page(highlight: int, len: int, delta: int, page_size: int) -> int {
    clamp(page_of(highlight, page_size) + delta, 0, page_count(len, page_size) - 1)
}

/// The first slot of the highlight's page is at or before the highlight.
proof fn lemma_page_start(highlight: int, page_size: int)
    requires
        0 <= highlight,
        0 < page_size,
    ensures
        0 <= (highlight / page_size) * page_size <= highlight,
{
    vstd::arithmetic::div_mod::lemma_remainder_lower(highlight, page_size);
    vstd::arithmetic::div_mod::lemma_div_pos_is_pos(highlight, page_size);
    assert(0 <= (highlight / page_size) * page_size) by (nonlinear_arith)
        requires
            0 <= highlight / page_size,
            0 < page_size,
    ;
}

/// A page number within the page count starts inside the candidates.
proof fn lemma_page_fits(next: int, len: int, page_size: int)
    requires
        1 <= len,
        1 <= page_size,
        0 <= next <= (len - 1) / page_size,
    ensures
        next * page_size <= len - 1,
{
    vstd::arithmetic::div_mod::lemma_remainder_lower(len - 1, page_size);
    assert(next * page_size <= ((len - 1) / page_size) * page_size) by (nonlinear_arith)
        requires
            0 <= next <= (len - 1) / page_size,
            1 <= page_size,
    ;
}

} // verus!
