//! Rendering of cards, board summaries and statistics as text: the table form
//! for people and the quiet form for scripts. The JSON form is the API's own
//! data and is encoded outside the library.

use vstd::prelude::*;

use crate::dates::{formatted_utc, format_instant, LONG_DATE, SHORT_DATE};
use crate::paint::{
    cell_texts, lines_pieces, render_table, shows_all, shows_styled, table_text, Doc, Piece, Style,
};
use crate::text::{
    decimal, i64_text, lines_of, pad_left, pad_right, padded_left, padded_right, repeat, repeated,
    signed_decimal, text_lines, texts, u64_text,
};
use crate::types::{BoardStats, Card, Column, Priority, Timestamp};

verus! {

broadcast use vstd::seq_lib::group_seq_properties;

/// Output format of a command.
#[derive(Clone, Copy, Debug, PartialEq, Eq, Structural)]
pub enum OutputFormat {
    /// Human-readable tables.
    Table,
    /// The data as pretty-printed JSON.
    Json,
    /// One id or `key:value` pair per line.
    Quiet,
}

impl Default for OutputFormat {
    fn default() -> (r: Self)
        ensures
            r == OutputFormat::Table,
    {
        OutputFormat::Table
    }
}

/// Widest title shown in a card table.
pub const TITLE_WIDTH: usize = 40;

/// Widest tag list shown in a card table.
pub const TAGS_WIDTH: usize = 20;

/// Characters of an id shown where space is short.
pub const SHORT_ID_LEN: usize = 8;

/// `s` cut to `max` characters, the last of them an ellipsis, when longer.
pub open spec fn truncated(s: Seq<char>, max: nat) -> Seq<char> {
    if s.len() <= max {
        s
    } else {
        s.subrange(0, max - 1) + seq!['…']
    }
}

/// Cuts `s` to `max_len` characters, ending in an ellipsis, when it is
/// longer.
pub fn truncate(s: &str, max_len: usize) -> (r: String)
    requires
        max_len >= 1,
    ensures
        r@ == truncated(s@, max_len as nat),
{
    let n = s.unicode_len();
    if n <= max_len {
        String::from_str(s)
    } else {
        let mut r = s.substring_char(0, max_len - 1).to_owned();
        r.append("…");
        proof {
            reveal_strlit("…");
        }
        r
    }
}

/// The first characters of an id, as many as `SHORT_ID_LEN` allows.
pub open spec fn spec_short_id(id: Seq<char>) -> Seq<char> {
    if id.len() <= SHORT_ID_LEN {
        id
    } else {
        id.subrange(0, SHORT_ID_LEN as int)
    }
}

/// The first characters of an id, as shown in tables.
pub fn short_id(id: &str) -> (r: String)
    ensures
        r@ == spec_short_id(id@),
{
    let n = id.unicode_len();
    if n <= SHORT_ID_LEN {
        String::from_str(id)
    } else {
        id.substring_char(0, SHORT_ID_LEN).to_owned()
    }
}

/// The texts joined with `sep` between neighbours.
pub open spec fn joined(parts: Seq<Seq<char>>, sep: Seq<char>) -> Seq<char>
    decreases parts.len(),
{
    if parts.len() == 0 {
        Seq::empty()
    } else if parts.len() == 1 {
        parts[0]
    } else {
        joined(parts.drop_last(), sep) + sep + parts.last()
    }
}

/// The tags joined by `, `, or `-` when there are none.
pub open spec fn spec_tags_text(tags: Seq<Seq<char>>) -> Seq<char> {
    if tags.len() == 0 {
        "-"@
    } else {
        joined(tags, ", "@)
    }
}

/// The tags joined by `, `, or `-` when there are none.
pub fn tags_text(tags: &Vec<String>) -> (r: String)
    ensures
        r@ == spec_tags_text(texts(tags@)),
{
    if tags.len() == 0 {
        return String::from_str("-");
    }
    let mut r = tags[0].clone();
    let mut i: usize = 1;
    assert(texts(tags@).subrange(0, 1) =~= seq![tags@[0]@]);
    while i < tags.len()
        invariant
            1 <= i <= tags@.len(),
            r@ == joined(texts(tags@).subrange(0, i as int), ", "@),
        decreases tags@.len() - i,
    {
        r.append(", ");
        r.append(tags[i].as_str());
        assert(texts(tags@).subrange(0, i + 1).drop_last() =~= texts(tags@).subrange(0, i as int));
        i = i + 1;
    }
    assert(texts(tags@).subrange(0, tags@.len() as int) =~= texts(tags@));
    r
}

/// The text printed for `t` in a known pattern (`?` outside chrono's range).
pub open spec fn date_text(t: Timestamp, pattern: Seq<char>) -> Seq<char> {
    match formatted_utc(t.secs, t.nanos, pattern) {
        Some(s) => s,
        None => "?"@,
    }
}

/// The due cell shows `-` without a due date, else the date, in red when it
/// lies before `now`.
pub open spec fn due_cell_shows(cell: Seq<char>, card: Card, now: Timestamp) -> bool {
    match card.due_date {
        None => cell == "-"@,
        Some(d) => if d.spec_before(now) {
            shows_styled(cell, date_text(d, SHORT_DATE@))
        } else {
            cell == date_text(d, SHORT_DATE@)
        },
    }
}

/// The priority as shown: its emoji and its name.
pub open spec fn priority_label(card: Card) -> Seq<char> {
    card.priority.spec_emoji() + " "@ + card.priority.spec_name()
}

/// `row` is the table row of `card` at `now`.
pub open spec fn row_shows(row: Seq<Seq<char>>, card: Card, now: Timestamp) -> bool {
    &&& row.len() == 6
    &&& row[0] == spec_short_id(card.id@)
    &&& row[1] == truncated(card.title@, TITLE_WIDTH as nat)
    &&& row[2] == priority_label(card)
    &&& row[3] == card.column.spec_display_name()
    &&& due_cell_shows(row[4], card, now)
    &&& row[5] == truncated(spec_tags_text(texts(card.tags@)), TAGS_WIDTH as nat)
}

/// The header of the card table.
pub open spec fn card_header() -> Seq<Seq<char>> {
    seq!["ID"@, "TITLE"@, "PRIORITY"@, "COLUMN"@, "DUE"@, "TAGS"@]
}

fn due_cell(card: &Card, now: &Timestamp) -> (r: String)
    ensures
        due_cell_shows(r@, *card, *now),
{
    match &card.due_date {
        Some(d) => {
            let text = format_instant(d, SHORT_DATE);
            if d.is_before(now) {
                crate::paint::styled(text.as_str(), Style::Red)
            } else {
                text
            }
        },
        None => String::from_str("-"),
    }
}

/// The table row of `card` at `now`: short id, title, priority, column, due
/// date (red when overdue) and tags.
pub fn card_row(card: &Card, now: &Timestamp) -> (r: Vec<String>)
    ensures
        row_shows(texts(r@), *card, *now),
{
    let mut priority = String::from_str(card.priority.emoji());
    priority.append(" ");
    priority.append(card.priority.name());
    let tags = tags_text(&card.tags);
    let r = vec![
        short_id(card.id.as_str()),
        truncate(card.title.as_str(), TITLE_WIDTH),
        priority,
        String::from_str(card.column.display_name()),
        due_cell(card, now),
        truncate(tags.as_str(), TAGS_WIDTH),
    ];
    assert(texts(r@)[4] == r@[4]@);
    r
}

fn header_row() -> (r: Vec<String>)
    ensures
        texts(r@) == card_header(),
{
    let r = vec![
        String::from_str("ID"),
        String::from_str("TITLE"),
        String::from_str("PRIORITY"),
        String::from_str("COLUMN"),
        String::from_str("DUE"),
        String::from_str("TAGS"),
    ];
    assert(texts(r@) =~= card_header());
    r
}

/// Message of an empty card table.
pub const NO_CARDS: &'static str = "No cards found.";

/// `rows` is the card table of `cards` at `now`: the header, then one row per
/// card in order.
pub open spec fn table_rows_show(rows: Seq<Seq<Seq<char>>>, cards: Seq<Card>, now: Timestamp) -> bool {
    &&& rows.len() == cards.len() + 1
    &&& rows[0] == card_header()
    &&& forall|i: int| 0 <= i < cards.len() ==> #[trigger] row_shows(rows[i + 1], cards[i], now)
}

/// The cards as a table for people: dimmed `No cards found.` when there are
/// none, else a table with a header and one row per card.
pub fn render_cards_table(cards: &Vec<Card>, now: &Timestamp) -> (r: String)
    ensures
        cards@.len() == 0 ==> shows_all(r@, seq![(NO_CARDS@, Some(Style::Dimmed)), ("\n"@, None::<Style>)]),
        cards@.len() > 0 ==> exists|rows: Seq<Seq<Seq<char>>>|
            table_rows_show(rows, cards@, *now) && r@ == table_text(rows) + "\n"@,
{
    if cards.len() == 0 {
        return no_cards();
    }
    let rows = card_table_rows(cards, now);
    let ghost shown = cell_texts(rows@);
    let mut r = render_table(rows);
    r.append("\n");
    assert(table_rows_show(shown, cards@, *now) && r@ == table_text(shown) + "\n"@);
    r
}

fn no_cards() -> (r: String)
    ensures
        shows_all(r@, seq![(NO_CARDS@, Some(Style::Dimmed)), ("\n"@, None::<Style>)]),
{
    let mut doc = Doc::new();
    doc.styled(NO_CARDS, Style::Dimmed);
    doc.plain("\n");
    assert(doc.pieces@ =~= seq![(NO_CARDS@, Some(Style::Dimmed)), ("\n"@, None::<Style>)]);
    doc.finish()
}

/// The cells of the card table: the header, then one row per card.
pub fn card_table_rows(cards: &Vec<Card>, now: &Timestamp) -> (r: Vec<Vec<String>>)
    ensures
        table_rows_show(cell_texts(r@), cards@, *now),
{
    let mut rows: Vec<Vec<String>> = Vec::new();
    rows.push(header_row());
    let mut i: usize = 0;
    while i < cards.len()
        invariant
            i <= cards@.len(),
            rows@.len() == i + 1,
            cell_texts(rows@)[0] == card_header(),
            forall|j: int| 0 <= j < i ==> #[trigger] row_shows(cell_texts(rows@)[j + 1], cards@[j], *now),
        decreases cards@.len() - i,
    {
        let row = card_row(&cards[i], now);
        let ghost before = rows@;
        rows.push(row);
        assert forall|j: int| 0 <= j < i + 1 implies #[trigger] row_shows(cell_texts(rows@)[j + 1], cards@[j], *now) by {
            if j < i {
                assert(cell_texts(rows@)[j + 1] == cell_texts(before)[j + 1]);
            } else {
                assert(cell_texts(rows@)[j + 1] == texts(row@));
            }
        }
        i = i + 1;
    }
    rows
}

/// One card id per line.
pub open spec fn ids_lines(cards: Seq<Card>) -> Seq<char>
    decreases cards.len(),
{
    if cards.len() == 0 {
        Seq::empty()
    } else {
        ids_lines(cards.drop_last()) + cards.last().id@ + "\n"@
    }
}

/// The quiet form of a card list: each card's full id on a line of its own.
pub fn render_cards_quiet(cards: &Vec<Card>) -> (r: String)
    ensures
        r@ == ids_lines(cards@),
{
    let mut r = String::new();
    let mut i: usize = 0;
    while i < cards.len()
        invariant
            i <= cards@.len(),
            r@ == ids_lines(cards@.subrange(0, i as int)),
        decreases cards@.len() - i,
    {
        r.append(cards[i].id.as_str());
        r.append("\n");
        assert(cards@.subrange(0, i + 1).drop_last() =~= cards@.subrange(0, i as int));
        i = i + 1;
    }
    assert(cards@.subrange(0, cards@.len() as int) =~= cards@);
    r
}

pub open spec fn in_column(col: Column) -> spec_fn(Card) -> bool {
    |c: Card| c.column == col
}

/// How many of `cards` stand in `col`.
pub open spec fn count_in(cards: Seq<Card>, col: Column) -> nat {
    cards.filter(in_column(col)).len()
}

/// How many of `cards` stand in `col`.
pub fn count_in_column(cards: &Vec<Card>, col: Column) -> (r: usize)
    ensures
        r == count_in(cards@, col),
{
    let ghost pred = in_column(col);
    let mut n: usize = 0;
    let mut i: usize = 0;
    while i < cards.len()
        invariant
            pred == in_column(col),
            i <= cards@.len(),
            n <= i,
            n == cards@.subrange(0, i as int).filter(pred).len(),
        decreases cards@.len() - i,
    {
        proof {
            assert(cards@.subrange(0, i + 1) =~= cards@.subrange(0, i as int).push(cards@[i as int]));
            cards@.subrange(0, i as int).lemma_filter_push(cards@[i as int], pred);
        }
        if cards[i].column == col {
            n = n + 1;
        }
        i = i + 1;
    }
    assert(cards@.subrange(0, cards@.len() as int) =~= cards@);
    n
}

/// The board summary: each column's display name with its number of cards,
/// in workflow order.
pub fn build_board_summary(cards: &Vec<Card>) -> (r: Vec<(String, usize)>)
    ensures
        r@.len() == Column::spec_all().len(),
        forall|i: int|
            0 <= i < r@.len() ==> #[trigger] r@[i].0@ == Column::spec_all()[i].spec_display_name()
                && r@[i].1 == count_in(cards@, Column::spec_all()[i]),
{
    let columns = Column::all();
    let mut r: Vec<(String, usize)> = Vec::new();
    let mut i: usize = 0;
    while i < columns.len()
        invariant
            columns@ == Column::spec_all(),
            i <= columns@.len(),
            r@.len() == i,
            forall|j: int|
                0 <= j < i ==> #[trigger] r@[j].0@ == Column::spec_all()[j].spec_display_name()
                    && r@[j].1 == count_in(cards@, Column::spec_all()[j]),
        decreases columns@.len() - i,
    {
        let col = columns[i];
        let count = count_in_column(cards, col);
        r.push((String::from_str(col.display_name()), count));
        i = i + 1;
    }
    r
}

/// One `name:count` line per entry.
pub open spec fn count_lines(entries: Seq<(String, usize)>) -> Seq<char>
    decreases entries.len(),
{
    if entries.len() == 0 {
        Seq::empty()
    } else {
        count_lines(entries.drop_last()) + entries.last().0@ + ":"@ + decimal(entries.last().1 as nat)
            + "\n"@
    }
}

/// The quiet form of a board summary: a `name:count` line per column.
pub fn render_board_quiet(summary: &Vec<(String, usize)>) -> (r: String)
    ensures
        r@ == count_lines(summary@),
{
    let mut r = String::new();
    let mut i: usize = 0;
    while i < summary.len()
        invariant
            i <= summary@.len(),
            r@ == count_lines(summary@.subrange(0, i as int)),
        decreases summary@.len() - i,
    {
        r.append(summary[i].0.as_str());
        r.append(":");
        let digits = u64_text(summary[i].1 as u64);
        r.append(digits.as_str());
        r.append("\n");
        assert(summary@.subrange(0, i + 1).drop_last() =~= summary@.subrange(0, i as int));
        i = i + 1;
    }
    assert(summary@.subrange(0, summary@.len() as int) =~= summary@);
    r
}

/// Length of the longest bar of the board table.
pub const BAR_WIDTH: usize = 20;

/// The bar of a column holding `count` of `total` cards.
pub open spec fn spec_bar_width(count: nat, total: nat) -> nat {
    if total > 0 {
        count * BAR_WIDTH as nat / total
    } else {
        0
    }
}

/// The bar of a column holding `count` of `total` cards, scaled so that a
/// column holding every card gets `BAR_WIDTH`.
pub fn bar_width(count: usize, total: usize) -> (r: usize)
    requires
        count <= total,
    ensures
        r == spec_bar_width(count as nat, total as nat),
        r <= BAR_WIDTH,
{
    if total == 0 {
        return 0;
    }
    let scaled: u128 = count as u128 * BAR_WIDTH as u128;
    let w: u128 = scaled / total as u128;
    assert(w <= BAR_WIDTH) by (nonlinear_arith)
        requires
            w == scaled / total as u128,
            scaled == count * BAR_WIDTH,
            count <= total,
            total > 0,
    ;
    w as usize
}

/// The style of a column's bar.
pub open spec fn bar_style(col: Column) -> Style {
    match col {
        Column::Backlog => Style::Dimmed,
        Column::Todo => Style::Blue,
        Column::InProgress => Style::Yellow,
        Column::Review => Style::Cyan,
        Column::Done => Style::Green,
    }
}

fn column_bar_style(col: Column) -> (r: Style)
    ensures
        r == bar_style(col),
{
    match col {
        Column::Backlog => Style::Dimmed,
        Column::Todo => Style::Blue,
        Column::InProgress => Style::Yellow,
        Column::Review => Style::Cyan,
        Column::Done => Style::Green,
    }
}

/// The rule under the title of the board table.
pub open spec fn board_rule() -> Seq<Piece> {
    seq![("  "@, None::<Style>), (repeat("─"@, 30), Some(Style::Dimmed))]
}

/// A column line: its name, its count and its bar.
pub open spec fn column_line(cards: Seq<Card>, col: Column) -> Seq<Piece> {
    let count = count_in(cards, col);
    seq![
        ("  "@ + pad_right(col.spec_display_name(), 12) + " "@ + pad_left(decimal(count), 3) + "  "@, None::<Style>),
        (repeat("█"@, spec_bar_width(count, cards.len())), Some(bar_style(col))),
    ]
}

/// The lines of the board table.
pub open spec fn board_lines(cards: Seq<Card>) -> Seq<Seq<Piece>> {
    seq![
        Seq::<Piece>::empty(),
        seq![("  "@, None::<Style>), ("BOARD OVERVIEW"@, Some(Style::Bold))],
        board_rule(),
    ] + Column::spec_all().map_values(|col: Column| column_line(cards, col)) + seq![
        board_rule(),
        seq![
            ("  "@, None::<Style>),
            (pad_right("Total"@, 12), Some(Style::Bold)),
            (" "@ + pad_left(decimal(cards.len()), 3), None::<Style>),
        ],
        Seq::<Piece>::empty(),
    ]
}

fn push_rule(doc: &mut Doc, done: Ghost<Seq<Seq<Piece>>>)
    requires
        old(doc).wf(),
        old(doc).pieces@ == lines_pieces(done@),
    ensures
        final(doc).wf(),
        final(doc).pieces@ == lines_pieces(done@.push(board_rule())),
{
    doc.plain("  ");
    let rule = repeated("─", 30);
    doc.styled(rule.as_str(), Style::Dimmed);
    assert(doc.pieces@ =~= lines_pieces(done@) + board_rule());
    doc.end_line(done, Ghost(board_rule()));
}

/// The board as a table for people: per column its name, its number of
/// cards and a bar scaled to the total, then the total.
pub fn render_board_table(cards: &Vec<Card>) -> (r: String)
    ensures
        shows_all(r@, lines_pieces(board_lines(cards@))),
{
    let total = cards.len();
    let mut doc = Doc::new();
    let ghost mut done: Seq<Seq<Piece>> = Seq::empty();
    assert(doc.pieces@ =~= lines_pieces(done) + Seq::<Piece>::empty());
    doc.end_line(Ghost(done), Ghost(Seq::empty()));
    proof { done = done.push(Seq::empty()); }
    doc.plain("  ");
    doc.styled("BOARD OVERVIEW", Style::Bold);
    let ghost title = seq![("  "@, None::<Style>), ("BOARD OVERVIEW"@, Some(Style::Bold))];
    assert(doc.pieces@ =~= lines_pieces(done) + title);
    doc.end_line(Ghost(done), Ghost(title));
    proof { done = done.push(title); }
    push_rule(&mut doc, Ghost(done));
    proof { done = done.push(board_rule()); }
    let ghost head = done;
    let columns = Column::all();
    let mut i: usize = 0;
    while i < columns.len()
        invariant
            columns@ == Column::spec_all(),
            i <= columns@.len(),
            total == cards@.len(),
            doc.wf(),
            done == head + Column::spec_all().subrange(0, i as int).map_values(
                |col: Column| column_line(cards@, col),
            ),
            doc.pieces@ == lines_pieces(done),
        decreases columns@.len() - i,
    {
        let col = columns[i];
        let count = count_in_column(cards, col);
        proof {
            cards@.lemma_filter_len(in_column(col));
        }
        let mut label = String::from_str("  ");
        let name = padded_right(col.display_name(), 12);
        label.append(name.as_str());
        label.append(" ");
        let digits = u64_text(count as u64);
        let count_text = padded_left(digits.as_str(), 3);
        label.append(count_text.as_str());
        label.append("  ");
        doc.plain(label.as_str());
        let bar = repeated("█", bar_width(count, total));
        doc.styled(bar.as_str(), column_bar_style(col));
        let ghost line = column_line(cards@, col);
        assert(doc.pieces@ =~= lines_pieces(done) + line);
        doc.end_line(Ghost(done), Ghost(line));
        proof {
            assert(Column::spec_all().subrange(0, i + 1).map_values(|c: Column| column_line(cards@, c))
                =~= Column::spec_all().subrange(0, i as int).map_values(|c: Column| column_line(cards@, c)).push(line));
            done = done.push(line);
        }
        i = i + 1;
    }
    assert(Column::spec_all().subrange(0, 5) =~= Column::spec_all());
    push_rule(&mut doc, Ghost(done));
    proof { done = done.push(board_rule()); }
    doc.plain("  ");
    let total_label = padded_right("Total", 12);
    doc.styled(total_label.as_str(), Style::Bold);
    let mut tail = String::from_str(" ");
    let digits = u64_text(total as u64);
    let total_text = padded_left(digits.as_str(), 3);
    tail.append(total_text.as_str());
    doc.plain(tail.as_str());
    let ghost total_line = seq![
        ("  "@, None::<Style>),
        (pad_right("Total"@, 12), Some(Style::Bold)),
        (" "@ + pad_left(decimal(cards@.len()), 3), None::<Style>),
    ];
    assert(doc.pieces@ =~= lines_pieces(done) + total_line);
    doc.end_line(Ghost(done), Ghost(total_line));
    proof { done = done.push(total_line); }
    assert(doc.pieces@ =~= lines_pieces(done) + Seq::<Piece>::empty());
    doc.end_line(Ghost(done), Ghost(Seq::empty()));
    proof { done = done.push(Seq::empty()); }
    assert(done =~= board_lines(cards@));
    doc.finish()
}

/// The count recorded under `name`: the first entry with that name, or 0.
pub open spec fn lookup_count(entries: Seq<(String, i32)>, name: Seq<char>) -> i32
    decreases entries.len(),
{
    if entries.len() == 0 {
        0
    } else if entries[0].0@ == name {
        entries[0].1
    } else {
        lookup_count(entries.drop_first(), name)
    }
}

/// The count recorded under `name`, or 0 when there is none.
pub fn stats_count(entries: &Vec<(String, i32)>, name: &str) -> (r: i32)
    ensures
        r == lookup_count(entries@, name@),
{
    let wanted = String::from_str(name);
    let mut i: usize = 0;
    assert(entries@.subrange(0, entries@.len() as int) =~= entries@);
    while i < entries.len()
        invariant
            wanted@ == name@,
            i <= entries@.len(),
            lookup_count(entries@.subrange(i as int, entries@.len() as int), name@) == lookup_count(
                entries@,
                name@,
            ),
        decreases entries@.len() - i,
    {
        let ghost rest = entries@.subrange(i as int, entries@.len() as int);
        assert(rest.drop_first() =~= entries@.subrange(i + 1, entries@.len() as int));
        assert(rest[0] == entries@[i as int]);
        if entries[i].0.eq(&wanted) {
            return entries[i].1;
        }
        i = i + 1;
    }
    0
}

/// The quiet form of the statistics: `total:N` and `overdue:M` lines.
pub fn render_stats_quiet(stats: &BoardStats) -> (r: String)
    ensures
        r@ == "total:"@ + signed_decimal(stats.total_cards as int) + "\n"@ + "overdue:"@
            + signed_decimal(stats.overdue_count as int) + "\n"@,
{
    let mut r = String::from_str("total:");
    let total = i64_text(stats.total_cards as i64);
    r.append(total.as_str());
    r.append("\n");
    r.append("overdue:");
    let overdue = i64_text(stats.overdue_count as i64);
    r.append(overdue.as_str());
    r.append("\n");
    r
}

/// A heading line: indented, dimmed text.
pub open spec fn heading(text: Seq<char>) -> Seq<Piece> {
    seq![("  "@, None::<Style>), (text, Some(Style::Dimmed))]
}

/// The line of one column in the statistics.
pub open spec fn stats_column_line(stats: BoardStats, col: Column) -> Seq<Piece> {
    seq![
        ("    "@ + pad_right(col.spec_display_name(), 12) + " "@ + signed_decimal(
            lookup_count(stats.by_column@, col.spec_name()) as int,
        ), None::<Style>),
    ]
}

/// The line of one priority in the statistics.
pub open spec fn stats_priority_line(stats: BoardStats, p: Priority) -> Seq<Piece> {
    seq![
        ("    "@ + p.spec_emoji() + " "@ + pad_right(p.spec_name(), 8) + " "@ + signed_decimal(
            lookup_count(stats.by_priority@, p.spec_name()) as int,
        ), None::<Style>),
    ]
}

/// The overdue line: the count in red when there is any.
pub open spec fn overdue_line(stats: BoardStats) -> Seq<Piece> {
    if stats.overdue_count > 0 {
        seq![
            ("  "@, None::<Style>),
            ("Overdue:"@, Some(Style::Dimmed)),
            (" "@, None::<Style>),
            (signed_decimal(stats.overdue_count as int), Some(Style::Red)),
        ]
    } else {
        seq![("  "@, None::<Style>), ("Overdue:"@, Some(Style::Dimmed)), (" 0"@, None::<Style>)]
    }
}

/// The lines of the statistics table.
pub open spec fn stats_lines(stats: BoardStats) -> Seq<Seq<Piece>> {
    seq![
        Seq::<Piece>::empty(),
        seq![("  "@, None::<Style>), ("BOARD STATISTICS"@, Some(Style::Bold))],
        heading(repeat("─"@, 40)),
        heading("Total cards:"@) + seq![(" "@ + signed_decimal(stats.total_cards as int), None::<Style>)],
        overdue_line(stats),
        Seq::<Piece>::empty(),
        heading("By Column:"@),
    ] + Column::spec_all().map_values(|col: Column| stats_column_line(stats, col)) + seq![
        Seq::<Piece>::empty(),
        heading("By Priority:"@),
    ] + Priority::spec_by_urgency().map_values(|p: Priority| stats_priority_line(stats, p)) + seq![
        Seq::<Piece>::empty(),
    ]
}

fn push_heading(doc: &mut Doc, done: Ghost<Seq<Seq<Piece>>>, text: &str)
    requires
        old(doc).wf(),
        old(doc).pieces@ == lines_pieces(done@),
    ensures
        final(doc).wf(),
        final(doc).pieces@ == lines_pieces(done@.push(heading(text@))),
{
    doc.plain("  ");
    doc.styled(text, Style::Dimmed);
    assert(doc.pieces@ =~= lines_pieces(done@) + heading(text@));
    doc.end_line(done, Ghost(heading(text@)));
}

fn push_blank(doc: &mut Doc, done: Ghost<Seq<Seq<Piece>>>)
    requires
        old(doc).wf(),
        old(doc).pieces@ == lines_pieces(done@),
    ensures
        final(doc).wf(),
        final(doc).pieces@ == lines_pieces(done@.push(Seq::<Piece>::empty())),
{
    assert(doc.pieces@ =~= lines_pieces(done@) + Seq::<Piece>::empty());
    doc.end_line(done, Ghost(Seq::empty()));
}

fn push_overdue(doc: &mut Doc, done: Ghost<Seq<Seq<Piece>>>, stats: &BoardStats)
    requires
        old(doc).wf(),
        old(doc).pieces@ == lines_pieces(done@),
    ensures
        final(doc).wf(),
        final(doc).pieces@ == lines_pieces(done@.push(overdue_line(*stats))),
{
    doc.plain("  ");
    doc.styled("Overdue:", Style::Dimmed);
    if stats.overdue_count > 0 {
        doc.plain(" ");
        let n = i64_text(stats.overdue_count as i64);
        doc.styled(n.as_str(), Style::Red);
    } else {
        doc.plain(" 0");
    }
    assert(doc.pieces@ =~= lines_pieces(done@) + overdue_line(*stats));
    doc.end_line(done, Ghost(overdue_line(*stats)));
}

fn push_stats_columns(doc: &mut Doc, done: Ghost<Seq<Seq<Piece>>>, stats: &BoardStats)
    requires
        old(doc).wf(),
        old(doc).pieces@ == lines_pieces(done@),
    ensures
        final(doc).wf(),
        final(doc).pieces@ == lines_pieces(
            done@ + Column::spec_all().map_values(|col: Column| stats_column_line(*stats, col)),
        ),
{
    let columns = Column::all();
    let ghost mut lines = done@;
    let mut i: usize = 0;
    while i < columns.len()
        invariant
            columns@ == Column::spec_all(),
            i <= columns@.len(),
            doc.wf(),
            lines == done@ + Column::spec_all().subrange(0, i as int).map_values(
                |col: Column| stats_column_line(*stats, col),
            ),
            doc.pieces@ == lines_pieces(lines),
        decreases columns@.len() - i,
    {
        let col = columns[i];
        let mut text = String::from_str("    ");
        let name = padded_right(col.display_name(), 12);
        text.append(name.as_str());
        text.append(" ");
        let n = i64_text(stats_count(&stats.by_column, col.name()) as i64);
        text.append(n.as_str());
        doc.plain(text.as_str());
        let ghost line = stats_column_line(*stats, col);
        assert(doc.pieces@ =~= lines_pieces(lines) + line);
        doc.end_line(Ghost(lines), Ghost(line));
        proof {
            assert(Column::spec_all().subrange(0, i + 1).map_values(|c: Column| stats_column_line(*stats, c))
                =~= Column::spec_all().subrange(0, i as int).map_values(|c: Column| stats_column_line(*stats, c)).push(line));
            lines = lines.push(line);
        }
        i = i + 1;
    }
    assert(Column::spec_all().subrange(0, 5) =~= Column::spec_all());
}

fn push_stats_priorities(doc: &mut Doc, done: Ghost<Seq<Seq<Piece>>>, stats: &BoardStats)
    requires
        old(doc).wf(),
        old(doc).pieces@ == lines_pieces(done@),
    ensures
        final(doc).wf(),
        final(doc).pieces@ == lines_pieces(
            done@ + Priority::spec_by_urgency().map_values(|p: Priority| stats_priority_line(*stats, p)),
        ),
{
    let order = Priority::by_urgency();
    let ghost mut lines = done@;
    let mut i: usize = 0;
    while i < order.len()
        invariant
            order@ == Priority::spec_by_urgency(),
            i <= order@.len(),
            doc.wf(),
            lines == done@ + Priority::spec_by_urgency().subrange(0, i as int).map_values(
                |p: Priority| stats_priority_line(*stats, p),
            ),
            doc.pieces@ == lines_pieces(lines),
        decreases order@.len() - i,
    {
        let p = order[i];
        let mut text = String::from_str("    ");
        text.append(p.emoji());
        text.append(" ");
        let name = padded_right(p.name(), 8);
        text.append(name.as_str());
        text.append(" ");
        let n = i64_text(stats_count(&stats.by_priority, p.name()) as i64);
        text.append(n.as_str());
        doc.plain(text.as_str());
        let ghost line = stats_priority_line(*stats, p);
        assert(doc.pieces@ =~= lines_pieces(lines) + line);
        doc.end_line(Ghost(lines), Ghost(line));
        proof {
            assert(Priority::spec_by_urgency().subrange(0, i + 1).map_values(|q: Priority| stats_priority_line(*stats, q))
                =~= Priority::spec_by_urgency().subrange(0, i as int).map_values(|q: Priority| stats_priority_line(*stats, q)).push(line));
            lines = lines.push(line);
        }
        i = i + 1;
    }
    assert(Priority::spec_by_urgency().subrange(0, 4) =~= Priority::spec_by_urgency());
}

/// The statistics as a table for people: totals, overdue count, and the
/// counts per column (workflow order) and per priority (most pressing first).
pub fn render_stats_table(stats: &BoardStats) -> (r: String)
    ensures
        shows_all(r@, lines_pieces(stats_lines(*stats))),
{
    let mut doc = Doc::new();
    let ghost mut done: Seq<Seq<Piece>> = Seq::empty();
    push_blank(&mut doc, Ghost(done));
    proof { done = done.push(Seq::empty()); }
    doc.plain("  ");
    doc.styled("BOARD STATISTICS", Style::Bold);
    let ghost title = seq![("  "@, None::<Style>), ("BOARD STATISTICS"@, Some(Style::Bold))];
    assert(doc.pieces@ =~= lines_pieces(done) + title);
    doc.end_line(Ghost(done), Ghost(title));
    proof { done = done.push(title); }
    let rule = repeated("─", 40);
    push_heading(&mut doc, Ghost(done), rule.as_str());
    proof { done = done.push(heading(rule@)); }
    doc.plain("  ");
    doc.styled("Total cards:", Style::Dimmed);
    let mut total = String::from_str(" ");
    let n = i64_text(stats.total_cards as i64);
    total.append(n.as_str());
    doc.plain(total.as_str());
    let ghost total_line = heading("Total cards:"@) + seq![(" "@ + signed_decimal(stats.total_cards as int), None::<Style>)];
    assert(doc.pieces@ =~= lines_pieces(done) + total_line);
    doc.end_line(Ghost(done), Ghost(total_line));
    proof { done = done.push(total_line); }
    push_overdue(&mut doc, Ghost(done), stats);
    proof { done = done.push(overdue_line(*stats)); }
    push_blank(&mut doc, Ghost(done));
    proof { done = done.push(Seq::empty()); }
    push_heading(&mut doc, Ghost(done), "By Column:");
    proof { done = done.push(heading("By Column:"@)); }
    push_stats_columns(&mut doc, Ghost(done), stats);
    proof { done = done + Column::spec_all().map_values(|col: Column| stats_column_line(*stats, col)); }
    push_blank(&mut doc, Ghost(done));
    proof { done = done.push(Seq::empty()); }
    push_heading(&mut doc, Ghost(done), "By Priority:");
    proof { done = done.push(heading("By Priority:"@)); }
    push_stats_priorities(&mut doc, Ghost(done), stats);
    proof { done = done + Priority::spec_by_urgency().map_values(|p: Priority| stats_priority_line(*stats, p)); }
    push_blank(&mut doc, Ghost(done));
    proof { done = done.push(Seq::empty()); }
    assert(done =~= stats_lines(*stats));
    doc.finish()
}

/// The tags, each behind `#`, separated by spaces.
pub open spec fn hash_tags_text(tags: Seq<Seq<char>>) -> Seq<char> {
    joined(tags.map_values(|t: Seq<char>| "#"@ + t), " "@)
}

fn hash_tags(tags: &Vec<String>) -> (r: String)
    ensures
        r@ == hash_tags_text(texts(tags@)),
{
    let ghost marked = texts(tags@).map_values(|t: Seq<char>| "#"@ + t);
    let mut r = String::new();
    let mut i: usize = 0;
    assert(marked.subrange(0, 0) =~= Seq::<Seq<char>>::empty());
    while i < tags.len()
        invariant
            marked == texts(tags@).map_values(|t: Seq<char>| "#"@ + t),
            i <= tags@.len(),
            r@ == joined(marked.subrange(0, i as int), " "@),
        decreases tags@.len() - i,
    {
        if i > 0 {
            r.append(" ");
        }
        r.append("#");
        r.append(tags[i].as_str());
        assert(marked.subrange(0, i + 1).drop_last() =~= marked.subrange(0, i as int));
        assert(marked[i as int] == "#"@ + tags@[i as int]@);
        if i == 0 {
            assert(marked.subrange(0, 1) =~= seq![marked[0]]);
        }
        i = i + 1;
    }
    assert(marked.subrange(0, tags@.len() as int) =~= marked);
    r
}

/// A labelled line: the dimmed label, then the value after a space.
pub open spec fn labelled(label: Seq<char>, value: Seq<char>) -> Seq<Piece> {
    heading(label) + seq![(" "@ + value, None::<Style>)]
}

/// The rule above and below a card's title.
pub open spec fn detail_rule() -> Seq<Piece> {
    seq![(repeat("─"@, 50), Some(Style::Dimmed))]
}

/// The description block: a blank line, a heading and the indented lines.
pub open spec fn description_lines(description: Option<String>) -> Seq<Seq<Piece>> {
    match description {
        None => Seq::empty(),
        Some(d) => seq![Seq::<Piece>::empty(), heading("Description:"@)] + text_lines(d@).map_values(
            |l: Seq<char>| seq![("    "@ + l, None::<Style>)],
        ),
    }
}

/// The due line, in red and marked overdue when the due date lies before
/// `now`.
pub open spec fn due_lines(card: Card, now: Timestamp) -> Seq<Seq<Piece>> {
    match card.due_date {
        None => Seq::empty(),
        Some(d) => seq![
            heading("Due:"@) + seq![
                (" "@, None::<Style>),
                if d.spec_before(now) {
                    (date_text(d, LONG_DATE@) + " (overdue)"@, Some(Style::Red))
                } else {
                    (date_text(d, LONG_DATE@), None::<Style>)
                },
            ],
        ],
    }
}

/// The tags line, when the card has tags.
pub open spec fn tag_lines(card: Card) -> Seq<Seq<Piece>> {
    if card.tags@.len() == 0 {
        Seq::empty()
    } else {
        seq![labelled("Tags:"@, hash_tags_text(texts(card.tags@)))]
    }
}

/// The title line: emoji, bold title and dimmed short id.
pub open spec fn title_line(card: Card) -> Seq<Piece> {
    seq![
        (card.priority.spec_emoji(), None::<Style>),
        (" "@, None::<Style>),
        (card.title@, Some(Style::Bold)),
        (" "@, None::<Style>),
        ("("@ + spec_short_id(card.id@) + ")"@, Some(Style::Dimmed)),
    ]
}

/// The lines of a card's detail view.
pub open spec fn detail_lines(card: Card, now: Timestamp) -> Seq<Seq<Piece>> {
    seq![
        detail_rule(),
        title_line(card),
        detail_rule(),
        labelled("Column:"@, card.column.spec_display_name()),
        labelled("Priority:"@, card.priority.spec_name()),
    ] + description_lines(card.description) + due_lines(card, now) + tag_lines(card) + seq![
        Seq::<Piece>::empty(),
        labelled("Created:"@, date_text(card.created_at, LONG_DATE@)),
        labelled("Updated:"@, date_text(card.updated_at, LONG_DATE@)),
    ]
}

fn push_labelled(doc: &mut Doc, done: Ghost<Seq<Seq<Piece>>>, label: &str, value: &str)
    requires
        old(doc).wf(),
        old(doc).pieces@ == lines_pieces(done@),
    ensures
        final(doc).wf(),
        final(doc).pieces@ == lines_pieces(done@.push(labelled(label@, value@))),
{
    doc.plain("  ");
    doc.styled(label, Style::Dimmed);
    let mut text = String::from_str(" ");
    text.append(value);
    doc.plain(text.as_str());
    assert(doc.pieces@ =~= lines_pieces(done@) + labelled(label@, value@));
    doc.end_line(done, Ghost(labelled(label@, value@)));
}

fn push_detail_rule(doc: &mut Doc, done: Ghost<Seq<Seq<Piece>>>)
    requires
        old(doc).wf(),
        old(doc).pieces@ == lines_pieces(done@),
    ensures
        final(doc).wf(),
        final(doc).pieces@ == lines_pieces(done@.push(detail_rule())),
{
    let rule = repeated("─", 50);
    doc.styled(rule.as_str(), Style::Dimmed);
    assert(doc.pieces@ =~= lines_pieces(done@) + detail_rule());
    doc.end_line(done, Ghost(detail_rule()));
}

fn push_title(doc: &mut Doc, done: Ghost<Seq<Seq<Piece>>>, card: &Card)
    requires
        old(doc).wf(),
        old(doc).pieces@ == lines_pieces(done@),
    ensures
        final(doc).wf(),
        final(doc).pieces@ == lines_pieces(done@.push(title_line(*card))),
{
    doc.plain(card.priority.emoji());
    doc.plain(" ");
    doc.styled(card.title.as_str(), Style::Bold);
    doc.plain(" ");
    let mut id = String::from_str("(");
    let short = short_id(card.id.as_str());
    id.append(short.as_str());
    id.append(")");
    doc.styled(id.as_str(), Style::Dimmed);
    assert(doc.pieces@ =~= lines_pieces(done@) + title_line(*card));
    doc.end_line(done, Ghost(title_line(*card)));
}

fn push_description(doc: &mut Doc, done: Ghost<Seq<Seq<Piece>>>, description: &Option<String>)
    requires
        old(doc).wf(),
        old(doc).pieces@ == lines_pieces(done@),
    ensures
        final(doc).wf(),
        final(doc).pieces@ == lines_pieces(done@ + description_lines(*description)),
{
    match description {
        None => {
            assert(done@ + description_lines(*description) =~= done@);
        },
        Some(d) => {
            push_blank(doc, done);
            let ghost head = done@.push(Seq::empty());
            push_heading(doc, Ghost(head), "Description:");
            let ghost head = head.push(heading("Description:"@));
            let lines = lines_of(d.as_str());
            let ghost shown = text_lines(d@).map_values(|l: Seq<char>| seq![("    "@ + l, None::<Style>)]);
            let ghost mut acc = head;
            let mut i: usize = 0;
            while i < lines.len()
                invariant
                    texts(lines@) == text_lines(d@),
                    shown == text_lines(d@).map_values(|l: Seq<char>| seq![("    "@ + l, None::<Style>)]),
                    i <= lines@.len(),
                    doc.wf(),
                    acc == head + shown.subrange(0, i as int),
                    doc.pieces@ == lines_pieces(acc),
                decreases lines@.len() - i,
            {
                let mut text = String::from_str("    ");
                text.append(lines[i].as_str());
                doc.plain(text.as_str());
                let ghost line = seq![("    "@ + lines@[i as int]@, None::<Style>)];
                assert(texts(lines@)[i as int] == lines@[i as int]@);
                assert(shown[i as int] == line);
                assert(doc.pieces@ =~= lines_pieces(acc) + line);
                doc.end_line(Ghost(acc), Ghost(line));
                proof {
                    assert(shown.subrange(0, i + 1) =~= shown.subrange(0, i as int).push(line));
                    acc = acc.push(line);
                }
                i = i + 1;
            }
            assert(shown.subrange(0, shown.len() as int) =~= shown);
            assert(done@ + description_lines(*description) =~= acc);
        },
    }
}

fn push_due(doc: &mut Doc, done: Ghost<Seq<Seq<Piece>>>, card: &Card, now: &Timestamp)
    requires
        old(doc).wf(),
        old(doc).pieces@ == lines_pieces(done@),
    ensures
        final(doc).wf(),
        final(doc).pieces@ == lines_pieces(done@ + due_lines(*card, *now)),
{
    match &card.due_date {
        None => {
            assert(done@ + due_lines(*card, *now) =~= done@);
        },
        Some(d) => {
            doc.plain("  ");
            doc.styled("Due:", Style::Dimmed);
            doc.plain(" ");
            let text = format_instant(d, LONG_DATE);
            if d.is_before(now) {
                let mut marked = text;
                marked.append(" (overdue)");
                doc.styled(marked.as_str(), Style::Red);
            } else {
                doc.plain(text.as_str());
            }
            let ghost line = due_lines(*card, *now)[0];
            assert(doc.pieces@ =~= lines_pieces(done@) + line);
            doc.end_line(done, Ghost(line));
            assert(done@ + due_lines(*card, *now) =~= done@.push(line));
        },
    }
}

fn push_tags(doc: &mut Doc, done: Ghost<Seq<Seq<Piece>>>, card: &Card)
    requires
        old(doc).wf(),
        old(doc).pieces@ == lines_pieces(done@),
    ensures
        final(doc).wf(),
        final(doc).pieces@ == lines_pieces(done@ + tag_lines(*card)),
{
    if card.tags.len() == 0 {
        assert(done@ + tag_lines(*card) =~= done@);
    } else {
        let text = hash_tags(&card.tags);
        push_labelled(doc, done, "Tags:", text.as_str());
        assert(done@ + tag_lines(*card) =~= done@.push(labelled("Tags:"@, text@)));
    }
}

/// A card in detail for people: title, column, priority, description, due
/// date (marked when overdue), tags and timestamps.
pub fn render_card_detail_table(card: &Card, now: &Timestamp) -> (r: String)
    ensures
        shows_all(r@, lines_pieces(detail_lines(*card, *now))),
{
    let mut doc = Doc::new();
    let ghost mut done: Seq<Seq<Piece>> = Seq::empty();
    push_detail_rule(&mut doc, Ghost(done));
    proof { done = done.push(detail_rule()); }
    push_title(&mut doc, Ghost(done), card);
    proof { done = done.push(title_line(*card)); }
    push_detail_rule(&mut doc, Ghost(done));
    proof { done = done.push(detail_rule()); }
    push_labelled(&mut doc, Ghost(done), "Column:", card.column.display_name());
    proof { done = done.push(labelled("Column:"@, card.column.spec_display_name())); }
    push_labelled(&mut doc, Ghost(done), "Priority:", card.priority.name());
    proof { done = done.push(labelled("Priority:"@, card.priority.spec_name())); }
    push_description(&mut doc, Ghost(done), &card.description);
    proof { done = done + description_lines(card.description); }
    push_due(&mut doc, Ghost(done), card, now);
    proof { done = done + due_lines(*card, *now); }
    push_tags(&mut doc, Ghost(done), card);
    proof { done = done + tag_lines(*card); }
    push_blank(&mut doc, Ghost(done));
    proof { done = done.push(Seq::empty()); }
    let created = format_instant(&card.created_at, LONG_DATE);
    push_labelled(&mut doc, Ghost(done), "Created:", created.as_str());
    proof { done = done.push(labelled("Created:"@, created@)); }
    let updated = format_instant(&card.updated_at, LONG_DATE);
    push_labelled(&mut doc, Ghost(done), "Updated:", updated.as_str());
    proof { done = done.push(labelled("Updated:"@, updated@)); }
    assert(done =~= detail_lines(*card, *now));
    doc.finish()
}

/// The quiet form of a card: its full id on a line.
pub fn render_card_detail_quiet(card: &Card) -> (r: String)
    ensures
        r@ == card.id@ + "\n"@,
{
    let mut r = String::from_str(card.id.as_str());
    r.append("\n");
    r
}

} // verus!
