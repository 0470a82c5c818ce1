//! What the candidate window shows: the inline preedit (pinyin marked text with its
//! cursor), the auxiliary line (the pinyin again, plus the notice of a forgotten
//! candidate) and the lookup table. A frame is built from the host state; sending it
//! over D-Bus is the caller's business. Closing the window is an empty table and a
//! hidden preedit.

use vstd::prelude::*;

use crate::config::LayoutMode;
use crate::host::Host;
use crate::session::{clamp, Candidate};

verus! {

/// The lookup table of a frame: all candidates, page size, highlighted index and
/// direction. Paging is done by the candidate window.
#[derive(Debug)]
pub struct TableLayout {
    candidates: Vec<String>,
    page_size: u32,
    cursor_pos: usize,
    orientation: LayoutMode,
}

impl TableLayout {
    pub closed spec fn texts(&self) -> Seq<Seq<char>> {
        self.candidates@.map_values(|s: String| s@)
    }

    pub closed spec fn page(&self) -> u32 {
        self.page_size
    }

    pub closed spec fn cursor(&self) -> usize {
        self.cursor_pos
    }

    pub closed spec fn direction(&self) -> LayoutMode {
        self.orientation
    }

    /// Direction, always set explicitly: gnome-shell takes "system" as vertical.
    pub fn orientation(&self) -> (r: LayoutMode)
        ensures
            r == self.direction(),
    {
        self.orientation
    }

    /// The candidate texts.
    pub fn candidates(&self) -> (r: &[String])
        ensures
            r@.map_values(|s: String| s@) == self.texts(),
    {
        self.candidates.as_slice()
    }

    /// Candidates per page, within 1..=16 as ibus requires.
    pub fn page_size(&self) -> (r: u32)
        ensures
            r == self.page(),
    {
        self.page_size
    }

    /// The highlighted candidate.
    pub fn cursor_pos(&self) -> (r: usize)
        ensures
            r == self.cursor(),
    {
        self.cursor_pos
    }
}

/// One frame of UI state to send to ibus.
#[derive(Debug)]
pub struct Frame {
    /// Inline preedit text (pinyin).
    pub preedit: String,
    /// Preedit cursor (characters; the preedit is ASCII, so also bytes).
    pub cursor: u32,
    /// The preedit is shown.
    pub preedit_visible: bool,
    /// Auxiliary line: the pinyin, with the notice to its right when there is one.
    pub aux: String,
    /// Lookup table.
    pub table: TableLayout,
    /// The lookup table is shown.
    pub table_visible: bool,
}

/// The result of querying the engine after the buffer changed.
#[derive(Debug)]
pub struct QueryView {
    /// The parsed pinyin as marked text (`ni'hao`).
    pub marked_text: String,
    /// Cursor in the marked text (characters).
    pub marked_cursor: usize,
    /// The candidates.
    pub candidates: Vec<Candidate>,
}

/// The keys as typed in the buffer (Shift capitals restored) and the buffer cursor.
#[derive(Debug)]
pub struct Typed {
    pub text: String,
    pub cursor: usize,
}

/// Page size as the lookup table takes it: clamped into 1..=16.
pub open spec fn table_page_size(page_size: int) -> int {
    clamp(page_size, 1, 16)
}

/// The auxiliary line for a preedit: the notice goes to the right of the pinyin while
/// composing.
pub open spec fn aux_line(preedit: Seq<char>, notice: Option<String>, composing: bool) -> Seq<char> {
    match notice {
        Some(n) if composing => preedit + "  "@ + n@,
        _ => preedit,
    }
}

/// Preedit text and cursor after a successful query: the parsed pinyin by default, the
/// typed keys with `raw_preedit`. The notice never goes into the inline preedit.
pub fn preedit_of(host: &Host, query: &QueryView, typed: &Typed) -> (r: (String, usize))
    ensures
        host.raw_preedit ==> r.0@ == typed.text@ && r.1 == typed.cursor,
        !host.raw_preedit ==> r.0@ == query.marked_text@ && r.1 == query.marked_cursor,
{
    if host.raw_preedit {
        (typed.text.clone(), typed.cursor)
    } else {
        (query.marked_text.clone(), query.marked_cursor)
    }
}

/// Frame after the buffer changed: the query's candidates and preedit start a new
/// session round. Without a query result (the buffer does not parse) the typed keys are
/// shown and there are no candidates.
pub fn frame_after_change(host: &mut Host, query: Option<QueryView>, typed: Typed, composing: bool) -> (f: Frame)
    ensures
        query matches Some(q) ==> {
            &&& final(host).session.texts() == q.candidates@.map_values(|c: Candidate| c.text@)
            &&& (old(host).raw_preedit ==> final(host).session.preedit_text() == typed.text@
                && final(host).session.preedit_cursor_pos() == typed.cursor)
            &&& (!old(host).raw_preedit ==> final(host).session.preedit_text() == q.marked_text@
                && final(host).session.preedit_cursor_pos() == q.marked_cursor)
        },
        query is None ==> final(host).session.len() == 0
            && final(host).session.preedit_text() == typed.text@
            && final(host).session.preedit_cursor_pos() == typed.cursor,
        final(host).session.highlight() == 0,
        final(host).notice == old(host).notice,
        final(host).switch_tap_pending == old(host).switch_tap_pending,
        final(host).same_settings(old(host)),
        shows(f, *final(host), composing),
{
    match query {
        Some(q) => {
            let (preedit, cursor) = preedit_of(host, &q, &typed);
            host.session.reset(preedit, cursor, q.candidates);
        },
        None => {
            host.session.reset(typed.text, typed.cursor, Vec::new());
        },
    }
    frame_of(host, composing)
}

/// The frame shows the host's session as it is.
pub open spec fn shows(f: Frame, host: Host, composing: bool) -> bool {
    let preedit = host.session.preedit_text();
    &&& f.preedit@ == preedit
    &&& f.cursor == host.session.preedit_cursor_pos() as u32
    &&& f.preedit_visible == (composing && preedit.len() > 0)
    &&& f.aux@ == aux_line(preedit, host.notice, composing)
    &&& f.table.texts() == host.session.texts()
    &&& f.table.page() == table_page_size(host.page_size as int)
    &&& f.table.cursor() == host.session.highlight()
    &&& f.table.direction() == host.layout
    &&& f.table_visible == (composing && host.session.len() > 0)
}

/// Frame of the current state, without a new query (the highlight or page moved).
pub fn frame_of(host: &Host, composing: bool) -> (f: Frame)
    ensures
        shows(f, *host, composing),
{
    let (preedit, cursor) = host.session.preedit();
    let aux = match &host.notice {
        Some(notice) if composing => {
            let mut line = preedit.to_owned();
            line.append("  ");
            line.append(notice.as_str());
            line
        },
        _ => preedit.to_owned(),
    };
    let table = lookup_table(host);
    let table_visible = composing && table.candidates.len() > 0;
    Frame {
        preedit_visible: composing && !preedit.is_empty(),
        preedit: preedit.to_owned(),
        cursor: cursor as u32,
        aux,
        table,
        table_visible,
    }
}

/// The lookup table for the session: all candidates, the page size, the highlight and
/// the configured direction.
fn lookup_table(host: &Host) -> (t: TableLayout)
    ensures
        t.texts() == host.session.texts(),
        t.candidates@.len() == host.session.len(),
        t.page() == table_page_size(host.page_size as int),
        t.cursor() == host.session.highlight(),
        t.direction() == host.layout,
{
    let candidates = host.session.candidates();
    let mut texts: Vec<String> = Vec::new();
    let n = candidates.len();
    for i in 0..n
        invariant
            n == candidates@.len(),
            texts@.len() == i,
            forall|j: int| 0 <= j < i ==> #[trigger] texts@[j]@ == candidates@[j].text@,
    {
        texts.push(candidates[i].text.clone());
    }
    assert(texts@.map_values(|s: String| s@) =~= candidates@.map_values(|c: Candidate| c.text@));
    let page_size: u32 = if host.page_size < 1 {
        1
    } else if host.page_size > 16 {
        16
    } else {
        host.page_size as u32
    };
    TableLayout {
        candidates: texts,
        page_size,
        cursor_pos: host.session.highlighted(),
        orientation: host.layout,
    }
}

} // verus!
