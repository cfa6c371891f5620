//! A captured screen with text-level conveniences.

use vstd::prelude::*;
use crate::text::{chars_of, contains_chars, contains_seq, join_strings, join_with};
use crate::types::{CursorInfo, RowContent, ScreenContent};

verus! {

/// The texts of the rows, in order.
pub open spec fn row_texts(rows: Seq<RowContent>) -> Seq<Seq<char>> {
    rows.map_values(|r: RowContent| r.text@)
}

/// The full text of a capture: row texts joined by newlines.
pub open spec fn screen_text_of(content: ScreenContent) -> Seq<char> {
    join_with(row_texts(content.screen@), "\n"@)
}

/// Index of the first row whose number is `row`.
pub open spec fn first_row_with(rows: Seq<RowContent>, row: u16) -> Option<int>
    decreases rows.len(),
{
    if rows.len() == 0 {
        None
    } else if rows[0].row == row {
        Some(0)
    } else {
        match first_row_with(rows.drop_first(), row) {
            Some(i) => Some(i + 1),
            None => None,
        }
    }
}

/// `o` moved forward by `k` positions.
pub open spec fn shifted(o: Option<int>, k: int) -> Option<int> {
    match o {
        Some(i) => Some(i + k),
        None => None,
    }
}

/// The text of a capture: its rows' texts joined by newlines.
pub fn joined_rows_text(inner: &ScreenContent) -> (t: String)
    ensures
        t@ == screen_text_of(*inner),
{
    let mut texts: Vec<String> = Vec::new();
    let mut i: usize = 0;
    while i < inner.screen.len()
        invariant
            i <= inner.screen@.len(),
            texts@.map_values(|p: String| p@) == row_texts(inner.screen@).take(i as int),
        decreases inner.screen@.len() - i,
    {
        let t = inner.screen[i].text.as_str().to_owned();
        assert(t@ == row_texts(inner.screen@)[i as int]);
        let ghost before = texts@.map_values(|p: String| p@);
        texts.push(t);
        assert(texts@.map_values(|p: String| p@) =~= before.push(t@));
        i = i + 1;
        assert(texts@.map_values(|p: String| p@) =~= row_texts(inner.screen@).take(i as int));
    }
    assert(row_texts(inner.screen@).take(i as int) =~= row_texts(inner.screen@));
    join_strings(&texts, "\n")
}

/// A captured terminal screen.
#[derive(Debug)]
pub struct Screen {
    inner: ScreenContent,
    text: String,
}

impl Screen {
    #[verifier::type_invariant]
    spec fn text_is_joined_rows(self) -> bool {
        self.text@ == screen_text_of(self.inner)
    }

    /// The capture this screen wraps.
    pub closed spec fn content(self) -> ScreenContent {
        self.inner
    }

    /// Wraps a capture, joining its rows' texts.
    pub fn new(inner: ScreenContent) -> (s: Screen)
        ensures
            s.content() == inner,
    {
        let text = joined_rows_text(&inner);
        Screen { inner, text }
    }

    /// Full screen content as a single string (rows joined by newlines).
    pub fn text(&self) -> (s: &str)
        ensures
            s@ == screen_text_of(self.content()),
    {
        proof { use_type_invariant(self); }
        self.text.as_str()
    }

    /// Whether the screen text contains `needle`.
    pub fn contains(&self, needle: &str) -> (b: bool)
        ensures
            b == contains_seq(screen_text_of(self.content()), needle@),
    {
        proof { use_type_invariant(self); }
        let t = chars_of(self.text.as_str());
        let n = chars_of(needle);
        contains_chars(t.as_slice(), n.as_slice())
    }

    /// The text of the first row numbered `row`.
    pub fn row_text(&self, row: u16) -> (r: Option<&str>)
        ensures
            match first_row_with(self.content().screen@, row) {
                Some(i) => r matches Some(t) && t@ == self.content().screen@[i].text@,
                None => r is None,
            },
    {
        let rows = &self.inner.screen;
        assert(rows@.skip(0) =~= rows@);
        let mut i: usize = 0;
        while i < rows.len()
            invariant
                i <= rows@.len(),
                rows@ == self.content().screen@,
                first_row_with(rows@, row) == shifted(first_row_with(rows@.skip(i as int), row), i as int),
            decreases rows@.len() - i,
        {
            assert(rows@.skip(i as int).drop_first() =~= rows@.skip(i + 1));
            if rows[i].row == row {
                return Some(rows[i].text.as_str());
            }
            i = i + 1;
        }
        None
    }

    /// Cursor position and style at capture time.
    pub fn cursor(&self) -> (c: &CursorInfo)
        ensures
            *c == self.content().cursor,
    {
        &self.inner.cursor
    }

    /// Terminal dimensions (columns, rows).
    pub fn size(&self) -> (r: (u16, u16))
        ensures
            r == (self.content().cols, self.content().rows),
    {
        (self.inner.cols, self.inner.rows)
    }

    /// Window title, if the application set one.
    pub fn title(&self) -> (r: Option<&str>)
        ensures
            match self.content().title {
                Some(t) => r matches Some(s) && s@ == t@,
                None => r is None,
            },
    {
        match &self.inner.title {
            Some(t) => Some(t.as_str()),
            None => None,
        }
    }

    /// The underlying capture, with cell-level data.
    pub fn raw(&self) -> (c: &ScreenContent)
        ensures
            *c == self.content(),
    {
        &self.inner
    }
}

} // verus!
