//! The state of a list view over syntax tokens: a window of rows that
//! scrolls over a larger virtual list. The view is given the contents of the
//! visible window; it keeps the ages of the memory bytes it shows, decides
//! when a scroll asks for new contents, and says how each token is to be
//! painted. Painting itself is left to the caller.
use vstd::prelude::*;
use crate::syntax_token::SyntaxToken;

verus! {

/// A colour as red, green and blue.
#[derive(Clone, Copy, Debug, PartialEq, Eq, Structural)]
pub struct Rgb {
    pub r: u8,
    pub g: u8,
    pub b: u8,
}

/// Which text a token is painted with.
#[derive(Clone, Copy, Debug, PartialEq, Eq, Structural)]
pub enum TokenText {
    /// The text that the token carries.
    Own,
    OpenBracket,
    CloseBracket,
    Colon,
    Comma,
    Plus,
    /// The token has no text: a marker for a missing token is painted.
    Missing,
}

/// Where the next token starts.
#[derive(Clone, Copy, Debug, PartialEq, Eq, Structural)]
pub enum Advance {
    /// So many units after the end of the text.
    AfterText(u8),
    /// So many units after the start of the text.
    FromStart(u8),
    /// The width of a two-digit label plus so many units.
    LabelWidth(u8),
}

/// How a token is painted.
#[derive(Clone, Copy, Debug, PartialEq, Eq, Structural)]
pub struct TokenStyle {
    pub text: TokenText,
    pub color: Rgb,
    /// The colour that a freshly changed value is painted with; the age of
    /// the token fades it into `color`.
    pub fade_to: Option<Rgb>,
    pub advance: Advance,
    /// The token is a label that answers to the pointer.
    pub hoverable: bool,
}

pub open spec fn plain(text: TokenText, color: Rgb, padding: u8) -> TokenStyle {
    TokenStyle {
        text: text,
        color: color,
        fade_to: None,
        advance: Advance::AfterText(padding),
        hoverable: false,
    }
}

/// The style of each kind of token.
pub open spec fn style_of(t: SyntaxToken) -> TokenStyle {
    match t {
        SyntaxToken::MemoryAddressFlat(_, _) => plain(TokenText::Own, Rgb { r: 220, g: 220, b: 220 }, 10),
        SyntaxToken::MemoryByteHexValue(_, _, _, _, _) => TokenStyle {
            text: TokenText::Own,
            color: Rgb { r: 160, g: 160, b: 160 },
            fade_to: Some(Rgb { r: 0, g: 255, b: 255 }),
            advance: Advance::LabelWidth(7),
            hoverable: true,
        },
        SyntaxToken::MemoryByteAsciiValue(_, _, _, _) => TokenStyle {
            text: TokenText::Own,
            color: Rgb { r: 220, g: 220, b: 220 },
            fade_to: Some(Rgb { r: 0, g: 255, b: 255 }),
            advance: Advance::AfterText(2),
            hoverable: false,
        },
        SyntaxToken::Mnemonic(_) => TokenStyle {
            text: TokenText::Own,
            color: Rgb { r: 128, g: 255, b: 158 },
            fade_to: None,
            advance: Advance::FromStart(45),
            hoverable: false,
        },
        SyntaxToken::MemoryAddressSeg16(_, _, _) => plain(TokenText::Own, Rgb { r: 220, g: 220, b: 220 }, 10),
        SyntaxToken::InstructionBytes(_) => plain(TokenText::Own, Rgb { r: 6, g: 152, b: 255 }, 1),
        SyntaxToken::Prefix(_) => plain(TokenText::Own, Rgb { r: 116, g: 228, b: 227 }, 2),
        SyntaxToken::Register(_) => plain(TokenText::Own, Rgb { r: 245, g: 138, b: 52 }, 1),
        SyntaxToken::OpenBracket => plain(
            TokenText::OpenBracket,
            Rgb { r: 228, g: 214, b: 116 },
            1,
        ),
        SyntaxToken::CloseBracket => plain(
            TokenText::CloseBracket,
            Rgb { r: 228, g: 214, b: 116 },
            2,
        ),
        SyntaxToken::Colon => plain(TokenText::Colon, Rgb { r: 220, g: 220, b: 220 }, 1),
        SyntaxToken::Comma => plain(TokenText::Comma, Rgb { r: 220, g: 220, b: 220 }, 6),
        SyntaxToken::PlusSign => plain(TokenText::Plus, Rgb { r: 220, g: 220, b: 220 }, 1),
        SyntaxToken::Displacement(_) | SyntaxToken::HexValue(_) => plain(
            TokenText::Own,
            Rgb { r: 96, g: 200, b: 210 },
            2,
        ),
        SyntaxToken::Segment(_) => plain(TokenText::Own, Rgb { r: 245, g: 138, b: 52 }, 1),
        SyntaxToken::Text(_) => plain(TokenText::Own, Rgb { r: 220, g: 220, b: 220 }, 2),
        SyntaxToken::ErrorString(_) => plain(TokenText::Own, Rgb { r: 255, g: 0, b: 0 }, 2),
        _ => plain(TokenText::Missing, Rgb { r: 255, g: 255, b: 255 }, 2),
    }
}

fn plain_style(text: TokenText, color: Rgb, padding: u8) -> (s: TokenStyle)
    ensures
        s == plain(text, color, padding),
{
    TokenStyle {
        text: text,
        color: color,
        fade_to: None,
        advance: Advance::AfterText(padding),
        hoverable: false,
    }
}

/// How `token` is painted.
pub fn token_style(token: &SyntaxToken) -> (s: TokenStyle)
    ensures
        s == style_of(*token),
{
    match token {
        SyntaxToken::MemoryAddressFlat(_, _) => plain_style(TokenText::Own, Rgb { r: 220, g: 220, b: 220 }, 10),
        SyntaxToken::MemoryByteHexValue(_, _, _, _, _) => TokenStyle {
            text: TokenText::Own,
            color: Rgb { r: 160, g: 160, b: 160 },
            fade_to: Some(Rgb { r: 0, g: 255, b: 255 }),
            advance: Advance::LabelWidth(7),
            hoverable: true,
        },
        SyntaxToken::MemoryByteAsciiValue(_, _, _, _) => TokenStyle {
            text: TokenText::Own,
            color: Rgb { r: 220, g: 220, b: 220 },
            fade_to: Some(Rgb { r: 0, g: 255, b: 255 }),
            advance: Advance::AfterText(2),
            hoverable: false,
        },
        SyntaxToken::Mnemonic(_) => TokenStyle {
            text: TokenText::Own,
            color: Rgb { r: 128, g: 255, b: 158 },
            fade_to: None,
            advance: Advance::FromStart(45),
            hoverable: false,
        },
        SyntaxToken::MemoryAddressSeg16(_, _, _) => plain_style(
            TokenText::Own,
            Rgb { r: 220, g: 220, b: 220 },
            10,
        ),
        SyntaxToken::InstructionBytes(_) => plain_style(
            TokenText::Own,
            Rgb { r: 6, g: 152, b: 255 },
            1,
        ),
        SyntaxToken::Prefix(_) => plain_style(TokenText::Own, Rgb { r: 116, g: 228, b: 227 }, 2),
        SyntaxToken::Register(_) => plain_style(TokenText::Own, Rgb { r: 245, g: 138, b: 52 }, 1),
        SyntaxToken::OpenBracket => plain_style(
            TokenText::OpenBracket,
            Rgb { r: 228, g: 214, b: 116 },
            1,
        ),
        SyntaxToken::CloseBracket => plain_style(
            TokenText::CloseBracket,
            Rgb { r: 228, g: 214, b: 116 },
            2,
        ),
        SyntaxToken::Colon => plain_style(TokenText::Colon, Rgb { r: 220, g: 220, b: 220 }, 1),
        SyntaxToken::Comma => plain_style(TokenText::Comma, Rgb { r: 220, g: 220, b: 220 }, 6),
        SyntaxToken::PlusSign => plain_style(TokenText::Plus, Rgb { r: 220, g: 220, b: 220 }, 1),
        SyntaxToken::Displacement(_) | SyntaxToken::HexValue(_) => plain_style(
            TokenText::Own,
            Rgb { r: 96, g: 200, b: 210 },
            2,
        ),
        SyntaxToken::Segment(_) => plain_style(TokenText::Own, Rgb { r: 245, g: 138, b: 52 }, 1),
        SyntaxToken::Text(_) => plain_style(TokenText::Own, Rgb { r: 220, g: 220, b: 220 }, 2),
        SyntaxToken::ErrorString(_) => plain_style(TokenText::Own, Rgb { r: 255, g: 0, b: 0 }, 2),
        _ => plain_style(TokenText::Missing, Rgb { r: 255, g: 255, b: 255 }, 2),
    }
}

/// The rows of a window of tokens.
pub open spec fn rows_of(v: Vec<Vec<SyntaxToken>>) -> Seq<Seq<SyntaxToken>> {
    Seq::new(v@.len(), |i: int| v@[i]@)
}

/// A row that takes the place of `old` in the view: each token that has a
/// token at its position in `old` is aged against it.
pub open spec fn aged_row(new: Seq<SyntaxToken>, old: Seq<SyntaxToken>) -> Seq<SyntaxToken> {
    Seq::new(
        new.len(),
        |j: int|
            if j < old.len() {
                new[j].aged(old[j])
            } else {
                new[j]
            },
    )
}

/// The contents that a view keeps when it is given `new` while it shows
/// `old`. If the number of rows changes, every memory byte gets the maximum
/// age. Otherwise each row is aged against the row that it replaces.
pub open spec fn aged_contents(
    new: Seq<Seq<SyntaxToken>>,
    old: Seq<Seq<SyntaxToken>>,
) -> Seq<Seq<SyntaxToken>> {
    if old.len() != new.len() {
        Seq::new(new.len(), |i: int| Seq::new(new[i].len(), |j: int| new[i][j].max_aged()))
    } else {
        Seq::new(new.len(), |i: int| aged_row(new[i], old[i]))
    }
}

/// `row` down to a multiple of 16: the row from which new contents are
/// fetched.
pub open spec fn fetch_row(row: usize) -> usize {
    (row - row % 16) as usize
}

pub struct TokenListView {
    pub row: usize,
    pub previous_row: usize,
    pub visible_rows: usize,
    pub max_rows: usize,
    pub contents: Vec<Vec<SyntaxToken>>,
    pub hover_text: String,
}

fn max_age_row(row: &mut Vec<SyntaxToken>)
    ensures
        final(row)@ == Seq::new(old(row)@.len(), |j: int| old(row)@[j].max_aged()),
{
    let n = row.len();
    let mut k: usize = 0;
    while k < n
        invariant
            k <= n,
            row@.len() == n,
            n == old(row)@.len(),
            forall|j: int| 0 <= j < k ==> row@[j] == old(row)@[j].max_aged(),
            forall|j: int| k <= j < n ==> row@[j] == old(row)@[j],
        decreases n - k,
    {
        row[k].set_max_age();
        k = k + 1;
    }
    assert(row@ =~= Seq::new(old(row)@.len(), |j: int| old(row)@[j].max_aged()));
}

fn age_row(row: &mut Vec<SyntaxToken>, old_row: &Vec<SyntaxToken>)
    ensures
        final(row)@ == aged_row(old(row)@, old_row@),
{
    let n = row.len();
    let m = old_row.len();
    let mut k: usize = 0;
    while k < n && k < m
        invariant
            k <= n,
            k <= m,
            row@.len() == n,
            n == old(row)@.len(),
            m == old_row@.len(),
            forall|j: int| 0 <= j < k ==> row@[j] == old(row)@[j].aged(old_row@[j]),
            forall|j: int| k <= j < n ==> row@[j] == old(row)@[j],
        decreases n - k,
    {
        row[k].age_against(&old_row[k]);
        k = k + 1;
    }
    assert(row@ =~= aged_row(old(row)@, old_row@));
}

impl TokenListView {
    /// A view of 16 visible rows over an empty list.
    pub fn new() -> (v: Self)
        ensures
            v.row == 0,
            v.previous_row == 0,
            v.visible_rows == 16,
            v.max_rows == 0,
            v.contents@.len() == 0,
            v.hover_text@.len() == 0,
    {
        Self {
            row: 0,
            previous_row: 0,
            visible_rows: 16,
            max_rows: 0,
            contents: Vec::new(),
            hover_text: String::new(),
        }
    }

    pub fn set_visible(&mut self, size: usize)
        ensures
            final(self).visible_rows == size,
            final(self).row == old(self).row,
            final(self).previous_row == old(self).previous_row,
            final(self).max_rows == old(self).max_rows,
            final(self).contents == old(self).contents,
            final(self).hover_text == old(self).hover_text,
    {
        self.visible_rows = size;
    }

    pub fn set_capacity(&mut self, size: usize)
        ensures
            final(self).max_rows == size,
            final(self).row == old(self).row,
            final(self).previous_row == old(self).previous_row,
            final(self).visible_rows == old(self).visible_rows,
            final(self).contents == old(self).contents,
            final(self).hover_text == old(self).hover_text,
    {
        self.max_rows = size;
    }

    /// Takes the contents of the visible window and ages its memory bytes
    /// against what the view showed before.
    pub fn set_contents(&mut self, contents: Vec<Vec<SyntaxToken>>)
        ensures
            rows_of(final(self).contents) == aged_contents(
                rows_of(contents),
                rows_of(old(self).contents),
            ),
            final(self).row == old(self).row,
            final(self).previous_row == old(self).previous_row,
            final(self).visible_rows == old(self).visible_rows,
            final(self).max_rows == old(self).max_rows,
            final(self).hover_text == old(self).hover_text,
    {
        let mut contents = contents;
        let ghost given = rows_of(contents);
        let ghost shown = rows_of(self.contents);
        let n = contents.len();
        if self.contents.len() != n {
            let mut k: usize = 0;
            while k < n
                invariant
                    k <= n,
                    contents@.len() == n,
                    given.len() == n,
                    forall|i: int|
                        0 <= i < k ==> (#[trigger] contents@[i])@ == Seq::new(
                            given[i].len(),
                            |j: int| given[i][j].max_aged(),
                        ),
                    forall|i: int| k <= i < n ==> (#[trigger] contents@[i])@ == given[i],
                decreases n - k,
            {
                max_age_row(&mut contents[k]);
                k = k + 1;
            }
            assert(rows_of(contents) =~= aged_contents(given, shown));
            self.contents = contents;
            return ;
        }
        let mut k: usize = 0;
        while k < n
            invariant
                k <= n,
                contents@.len() == n,
                self.contents@.len() == n,
                given.len() == n,
                shown == rows_of(self.contents),
                forall|i: int|
                    0 <= i < k ==> (#[trigger] contents@[i])@ == aged_row(given[i], shown[i]),
                forall|i: int| k <= i < n ==> (#[trigger] contents@[i])@ == given[i],
                self.row == old(self).row,
                self.previous_row == old(self).previous_row,
                self.visible_rows == old(self).visible_rows,
                self.max_rows == old(self).max_rows,
                self.hover_text == old(self).hover_text,
            decreases n - k,
        {
            age_row(&mut contents[k], &self.contents[k]);
            k = k + 1;
        }
        assert(rows_of(contents) =~= aged_contents(given, shown));
        self.contents = contents;
    }

    pub fn set_hover_text(&mut self, text: String)
        ensures
            final(self).hover_text == text,
            final(self).row == old(self).row,
            final(self).previous_row == old(self).previous_row,
            final(self).visible_rows == old(self).visible_rows,
            final(self).max_rows == old(self).max_rows,
            final(self).contents == old(self).contents,
    {
        self.hover_text = text;
    }

    /// The number of rows to paint: the visible rows, or fewer if the
    /// contents hold fewer.
    pub fn rows_to_show(&self) -> (n: usize)
        ensures
            n == if self.visible_rows <= self.contents@.len() {
                self.visible_rows
            } else {
                self.contents@.len() as usize
            },
    {
        if self.visible_rows <= self.contents.len() {
            self.visible_rows
        } else {
            self.contents.len()
        }
    }

    /// The first row of the window for a viewport that spans the items
    /// `first_item` to `last_item` of a list of `max_rows` rows: the last row
    /// may not lie beyond the one from which a full window is still on the
    /// list, and the first row not beyond the last.
    pub open spec fn window_row(&self, first_item: usize, last_item: usize) -> usize {
        let limit = (self.max_rows - self.visible_rows) as usize;
        let last = if last_item <= limit {
            last_item
        } else {
            limit
        };
        if first_item > last {
            last
        } else {
            first_item
        }
    }

    /// Places the window for a viewport that spans `first_item` to
    /// `last_item`. If the window moved, the result is the row from which the
    /// host fetches new contents.
    pub fn scroll_to(&mut self, first_item: usize, last_item: usize) -> (fetch: Option<usize>)
        requires
            old(self).visible_rows <= old(self).max_rows,
        ensures
            final(self).row == old(self).window_row(first_item, last_item),
            final(self).previous_row == final(self).row,
            fetch == if final(self).row != old(self).previous_row {
                Some(fetch_row(final(self).row))
            } else {
                None
            },
            final(self).visible_rows == old(self).visible_rows,
            final(self).max_rows == old(self).max_rows,
            final(self).contents == old(self).contents,
            final(self).hover_text == old(self).hover_text,
    {
        let limit = self.max_rows - self.visible_rows;
        let last = if last_item <= limit {
            last_item
        } else {
            limit
        };
        let first = if first_item > last {
            last
        } else {
            first_item
        };
        self.row = first;
        if self.row != self.previous_row {
            self.previous_row = self.row;
            Some(first - first % 16)
        } else {
            None
        }
    }
}

/// Whether the character at column `j` of a row belongs to the byte at
/// column `column_select`: the characters follow the sixteen bytes of the
/// row in the same order.
pub fn is_ascii_of_selected(j: usize, column_select: usize) -> (b: bool)
    ensures
        b == (j >= 16 && j - 16 == column_select),
{
    j >= 16 && j - 16 == column_select
}

} // verus!
