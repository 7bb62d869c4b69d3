//! Terminal styling and tables, through colored and tabled, and a builder for
//! text made of plain and styled pieces.

use colored::Colorize;
use tabled::settings::{object::Columns, Alignment, Modify};
use vstd::prelude::*;

verus! {

/// A terminal style applied to a piece of text.
#[derive(Clone, Copy, Debug, PartialEq, Eq, Structural)]
pub enum Style {
    Dimmed,
    Bold,
    Red,
    Blue,
    Yellow,
    Cyan,
    Green,
}

/// A foreground color.
#[derive(Clone, Copy, Debug, PartialEq, Eq, Structural)]
pub enum Hue {
    Red,
    Blue,
    Yellow,
    Cyan,
    Green,
}

/// The escape character that starts terminal control sequences.
pub open spec fn esc() -> char {
    '\u{1b}'
}

/// The sequence that ends a styled piece of text.
pub open spec fn reset_code() -> Seq<char> {
    seq![esc(), '[', '0', 'm']
}

/// `r` shows `s` styled: either `s` itself (styling is off in this
/// environment) or `s` behind a non-empty style prefix and before the reset
/// sequence.
pub open spec fn painted(r: Seq<char>, s: Seq<char>) -> bool {
    r == s || exists|p: Seq<char>| p.len() > 0 && r == p + s + reset_code()
}

/// `r` shows `s` styled, as far as that can be stated: text that itself holds
/// escape characters may come out otherwise.
pub open spec fn shows_styled(r: Seq<char>, s: Seq<char>) -> bool {
    !s.contains(esc()) ==> painted(r, s)
}

/// What tabled prints for `rows` (the first row being the header) in the
/// rounded style with a left-aligned first column.
pub uninterp spec fn table_text(rows: Seq<Seq<Seq<char>>>) -> Seq<char>;

/// Relies on colored's `Colorize::color` and the `Display` of
/// `ColoredString`: the text itself when coloring is off (`NO_COLOR`,
/// `CLICOLOR=0`, standard output not a terminal, or a manual override),
/// otherwise the text behind the color's escape sequence and before `ESC[0m`;
/// text holding no reset sequence is left as it is in between.
#[verifier::external_body]
fn colorize(s: &str, hue: Hue) -> (r: String)
    ensures
        shows_styled(r@, s@),
{
    let color = match hue {
        Hue::Red => colored::Color::Red,
        Hue::Blue => colored::Color::Blue,
        Hue::Yellow => colored::Color::Yellow,
        Hue::Cyan => colored::Color::Cyan,
        Hue::Green => colored::Color::Green,
    };
    s.color(color).to_string()
}

/// Relies on colored's `Colorize::dimmed` and the `Display` of
/// `ColoredString`, which behave as for `colorize`.
#[verifier::external_body]
fn dim(s: &str) -> (r: String)
    ensures
        shows_styled(r@, s@),
{
    s.dimmed().to_string()
}

/// Relies on colored's `Colorize::bold` and the `Display` of
/// `ColoredString`, which behave as for `colorize`.
#[verifier::external_body]
fn embolden(s: &str) -> (r: String)
    ensures
        shows_styled(r@, s@),
{
    s.bold().to_string()
}

/// The text of each cell of each row.
pub open spec fn cell_texts(rows: Seq<Vec<String>>) -> Seq<Seq<Seq<char>>> {
    rows.map_values(|row: Vec<String>| row@.map_values(|c: String| c@))
}

/// Relies on tabled's `Builder` and `Table` (with `Style::rounded` and a
/// left-aligned first column): the table drawn for `rows`, whose first row is
/// the header.
#[verifier::external_body]
pub(crate) fn render_table(rows: Vec<Vec<String>>) -> (r: String)
    ensures
        r@ == table_text(cell_texts(rows@)),
{
    let mut table = tabled::builder::Builder::from(rows).build();
    table.with(tabled::settings::Style::rounded());
    table.with(Modify::new(Columns::first()).with(Alignment::left()));
    table.to_string()
}

/// `s` in `style`.
pub fn styled(s: &str, style: Style) -> (r: String)
    ensures
        shows_styled(r@, s@),
{
    match style {
        Style::Dimmed => dim(s),
        Style::Bold => embolden(s),
        Style::Red => colorize(s, Hue::Red),
        Style::Blue => colorize(s, Hue::Blue),
        Style::Yellow => colorize(s, Hue::Yellow),
        Style::Cyan => colorize(s, Hue::Cyan),
        Style::Green => colorize(s, Hue::Green),
    }
}

/// A piece of text and the style it is shown in, if any.
pub type Piece = (Seq<char>, Option<Style>);

/// `r` shows the piece `p`.
pub open spec fn shows_piece(r: Seq<char>, p: Piece) -> bool {
    match p.1 {
        None => r == p.0,
        Some(_) => shows_styled(r, p.0),
    }
}

/// The pieces of text one after the other.
pub open spec fn concat(parts: Seq<Seq<char>>) -> Seq<char>
    decreases parts.len(),
{
    if parts.len() == 0 {
        Seq::empty()
    } else {
        concat(parts.drop_last()) + parts.last()
    }
}

/// `r` shows `pieces` one after the other.
pub open spec fn shows_all(r: Seq<char>, pieces: Seq<Piece>) -> bool {
    exists|parts: Seq<Seq<char>>|
        parts.len() == pieces.len() && r == concat(parts) && forall|i: int|
            0 <= i < pieces.len() ==> #[trigger] shows_piece(parts[i], pieces[i])
}

/// The pieces of `lines`, each line followed by a line break.
pub open spec fn lines_pieces(lines: Seq<Seq<Piece>>) -> Seq<Piece>
    decreases lines.len(),
{
    if lines.len() == 0 {
        Seq::empty()
    } else {
        lines_pieces(lines.drop_last()) + lines.last() + seq![(seq!['\n'], None::<Style>)]
    }
}

/// Text under construction, with the pieces it shows.
pub struct Doc {
    pub text: String,
    pub parts: Ghost<Seq<Seq<char>>>,
    pub pieces: Ghost<Seq<Piece>>,
}

impl Doc {
    pub open spec fn wf(&self) -> bool {
        &&& self.parts@.len() == self.pieces@.len()
        &&& self.text@ == concat(self.parts@)
        &&& forall|i: int|
            0 <= i < self.pieces@.len() ==> #[trigger] shows_piece(self.parts@[i], self.pieces@[i])
    }

    /// An empty text.
    pub fn new() -> (r: Doc)
        ensures
            r.wf(),
            r.pieces@ == Seq::<Piece>::empty(),
    {
        Doc { text: String::new(), parts: Ghost(Seq::empty()), pieces: Ghost(Seq::empty()) }
    }

    fn push_part(&mut self, shown: &str, piece: Ghost<Piece>)
        requires
            old(self).wf(),
            shows_piece(shown@, piece@),
        ensures
            final(self).wf(),
            final(self).pieces@ == old(self).pieces@.push(piece@),
    {
        self.text.append(shown);
        let ghost parts = self.parts@.push(shown@);
        assert(parts.drop_last() =~= self.parts@);
        self.parts = Ghost(parts);
        self.pieces = Ghost(self.pieces@.push(piece@));
        assert forall|i: int| 0 <= i < self.pieces@.len() implies #[trigger] shows_piece(
            self.parts@[i],
            self.pieces@[i],
        ) by {
            if i < self.pieces@.len() - 1 {
                assert(shows_piece(old(self).parts@[i], old(self).pieces@[i]));
            }
        }
    }

    /// Appends `s` as it is.
    pub fn plain(&mut self, s: &str)
        requires
            old(self).wf(),
        ensures
            final(self).wf(),
            final(self).pieces@ == old(self).pieces@.push((s@, None::<Style>)),
    {
        self.push_part(s, Ghost((s@, None)));
    }

    /// Appends `s` in `style`.
    pub fn styled(&mut self, s: &str, style: Style)
        requires
            old(self).wf(),
        ensures
            final(self).wf(),
            final(self).pieces@ == old(self).pieces@.push((s@, Some(style))),
    {
        let shown = styled(s, style);
        self.push_part(shown.as_str(), Ghost((s@, Some(style))));
    }

    /// Ends the current line.
    pub fn newline(&mut self)
        requires
            old(self).wf(),
        ensures
            final(self).wf(),
            final(self).pieces@ == old(self).pieces@.push((seq!['\n'], None::<Style>)),
    {
        proof {
            reveal_strlit("\n");
            assert("\n"@ =~= seq!['\n']);
        }
        self.plain("\n");
    }

    /// Ends a line whose pieces follow those of `done`.
    pub fn end_line(&mut self, done: Ghost<Seq<Seq<Piece>>>, line: Ghost<Seq<Piece>>)
        requires
            old(self).wf(),
            old(self).pieces@ == lines_pieces(done@) + line@,
        ensures
            final(self).wf(),
            final(self).pieces@ == lines_pieces(done@.push(line@)),
    {
        self.newline();
        assert(done@.push(line@).drop_last() =~= done@);
        assert(self.pieces@ =~= lines_pieces(done@.push(line@)));
    }

    /// The finished text.
    pub fn finish(self) -> (r: String)
        requires
            self.wf(),
        ensures
            shows_all(r@, self.pieces@),
    {
        self.text
    }
}

} // verus!
