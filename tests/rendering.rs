use blaze::render::{
    bar_width, build_board_summary, card_row, card_table_rows, count_in_column,
    render_board_quiet, render_board_table, render_card_detail_quiet, render_card_detail_table,
    render_cards_quiet, render_cards_table, render_stats_quiet, render_stats_table, short_id,
    stats_count, tags_text, truncate, OutputFormat,
};
use blaze::text::{i64_text, lines_of, padded_left, padded_right, repeated};
use blaze::types::{BoardStats, Card, Column, Priority, Timestamp};

fn at(secs: i64) -> Timestamp {
    Timestamp { secs, nanos: 0 }
}

/// Removes terminal escape sequences, so that output compares the same
/// whether or not styling is on.
fn plain(s: &str) -> String {
    let mut out = String::new();
    let mut chars = s.chars();
    while let Some(c) = chars.next() {
        if c == '\u{1b}' {
            for d in chars.by_ref() {
                if d == 'm' {
                    break;
                }
            }
        } else {
            out.push(c);
        }
    }
    out
}

fn card(id: &str, title: &str, column: Column, due: Option<Timestamp>, tags: &[&str]) -> Card {
    Card {
        id: id.to_string(),
        title: title.to_string(),
        description: None,
        priority: Priority::High,
        column,
        due_date: due,
        tags: tags.iter().map(|t| t.to_string()).collect(),
        created_at: at(1672531200),
        updated_at: at(1672617600),
        position: 0,
        agent_assignable: false,
        agent_status: None,
        agent_progress: Vec::new(),
        acceptance_criteria: Vec::new(),
        acceptance_checked: Vec::new(),
        blocked_reason: None,
    }
}

#[test]
fn truncation_keeps_short_text() {
    assert_eq!(truncate("hello", 5), "hello");
    assert_eq!(truncate("hello!", 5), "hell…");
    assert_eq!(truncate("", 1), "");
    assert_eq!(truncate("ab", 1), "…");
    assert_eq!(truncate("héllo wörld", 6), "héllo…");
}

#[test]
fn short_ids_take_eight_characters() {
    assert_eq!(short_id("0123456789abcdef"), "01234567");
    assert_eq!(short_id("abc"), "abc");
}

#[test]
fn tag_lists() {
    assert_eq!(tags_text(&Vec::new()), "-");
    assert_eq!(tags_text(&vec!["a".to_string(), "b".to_string()]), "a, b");
}

#[test]
fn card_row_cells() {
    let c = card("0123456789ab", "A title", Column::InProgress, Some(at(1672531200)), &["x", "y"]);
    let row = card_row(&c, &at(1704067200));
    assert_eq!(row.len(), 6);
    assert_eq!(row[0], "01234567");
    assert_eq!(row[1], "A title");
    assert_eq!(row[2], "🟠 high");
    assert_eq!(row[3], "In Progress");
    assert_eq!(plain(&row[4]), "Jan 01");
    assert_eq!(row[5], "x, y");
    let later = card_row(&c, &at(0));
    assert_eq!(later[4], "Jan 01");
    let undated = card_row(&card("i", "t", Column::Done, None, &[]), &at(0));
    assert_eq!(undated[4], "-");
    assert_eq!(undated[5], "-");
}

#[test]
fn card_table_has_header_and_rows() {
    let cards = vec![card("aaaaaaaaaaaa", "First", Column::Todo, None, &[])];
    let rows = card_table_rows(&cards, &at(0));
    assert_eq!(rows.len(), 2);
    assert_eq!(rows[0], vec!["ID", "TITLE", "PRIORITY", "COLUMN", "DUE", "TAGS"]);
    let text = render_cards_table(&cards, &at(0));
    assert!(text.contains("TITLE"));
    assert!(text.contains("aaaaaaaa"));
    assert!(!text.contains("aaaaaaaaa "));
    assert!(text.contains('╭'));
    assert!(text.ends_with('\n'));
}

#[test]
fn empty_card_table_says_so() {
    assert_eq!(plain(&render_cards_table(&Vec::new(), &at(0))), "No cards found.\n");
}

#[test]
fn quiet_card_list_prints_ids() {
    let cards = vec![
        card("id-one", "a", Column::Todo, None, &[]),
        card("id-two", "b", Column::Done, None, &[]),
    ];
    assert_eq!(render_cards_quiet(&cards), "id-one\nid-two\n");
    assert_eq!(render_cards_quiet(&Vec::new()), "");
    assert_eq!(render_card_detail_quiet(&cards[0]), "id-one\n");
}

#[test]
fn board_summary_counts_per_column() {
    let cards = vec![
        card("1", "a", Column::Todo, None, &[]),
        card("2", "b", Column::Todo, None, &[]),
        card("3", "c", Column::Done, None, &[]),
    ];
    assert_eq!(count_in_column(&cards, Column::Todo), 2);
    let summary = build_board_summary(&cards);
    let expected: Vec<(String, usize)> = vec![
        ("Backlog".to_string(), 0),
        ("Todo".to_string(), 2),
        ("In Progress".to_string(), 0),
        ("Review".to_string(), 0),
        ("Done".to_string(), 1),
    ];
    assert_eq!(summary, expected);
    assert_eq!(
        render_board_quiet(&summary),
        "Backlog:0\nTodo:2\nIn Progress:0\nReview:0\nDone:1\n"
    );
}

#[test]
fn bars_scale_to_total() {
    assert_eq!(bar_width(0, 0), 0);
    assert_eq!(bar_width(2, 3), 13);
    assert_eq!(bar_width(3, 3), 20);
    assert_eq!(bar_width(1, 40), 0);
}

#[test]
fn board_table_lines() {
    let cards = vec![
        card("1", "a", Column::Todo, None, &[]),
        card("2", "b", Column::Todo, None, &[]),
        card("3", "c", Column::Done, None, &[]),
    ];
    let text = plain(&render_board_table(&cards));
    let rule = "─".repeat(30);
    let expected = format!(
        "\n  BOARD OVERVIEW\n  {rule}\n  Backlog        0  \n  Todo           2  {}\n  In Progress    0  \n  Review         0  \n  Done           1  {}\n  {rule}\n  Total          3\n\n",
        "█".repeat(13),
        "█".repeat(6),
    );
    assert_eq!(text, expected);
}

#[test]
fn stats_lookup_and_quiet_form() {
    let stats = BoardStats {
        total_cards: 7,
        by_column: vec![("todo".to_string(), 4), ("done".to_string(), 3)],
        by_priority: vec![("high".to_string(), 2)],
        overdue_count: -1,
    };
    assert_eq!(stats_count(&stats.by_column, "done"), 3);
    assert_eq!(stats_count(&stats.by_column, "review"), 0);
    assert_eq!(render_stats_quiet(&stats), "total:7\noverdue:-1\n");
}

#[test]
fn stats_table_lines() {
    let stats = BoardStats {
        total_cards: 7,
        by_column: vec![("todo".to_string(), 4), ("done".to_string(), 3)],
        by_priority: vec![("high".to_string(), 2), ("low".to_string(), 5)],
        overdue_count: 2,
    };
    let text = plain(&render_stats_table(&stats));
    let rule = "─".repeat(40);
    let expected = format!(
        "\n  BOARD STATISTICS\n  {rule}\n  Total cards: 7\n  Overdue: 2\n\n  By Column:\n    Backlog      0\n    Todo         4\n    In Progress  0\n    Review       0\n    Done         3\n\n  By Priority:\n    🔴 urgent   0\n    🟠 high     2\n    🟡 medium   0\n    🟢 low      5\n\n"
    );
    assert_eq!(text, expected);
    let calm = BoardStats { overdue_count: 0, ..stats };
    assert!(plain(&render_stats_table(&calm)).contains("  Overdue: 0\n"));
}

#[test]
fn card_detail_lines() {
    let mut c = card("0123456789ab", "Ship it", Column::Review, Some(at(1672531200)), &["x", "y"]);
    c.description = Some("line one\r\nline two\n".to_string());
    let text = plain(&render_card_detail_table(&c, &at(1704067200)));
    let rule = "─".repeat(50);
    let expected = format!(
        "{rule}\n🟠 Ship it (01234567)\n{rule}\n  Column: Review\n  Priority: high\n\n  Description:\n    line one\n    line two\n  Due: 2023-01-01 00:00 (overdue)\n  Tags: #x #y\n\n  Created: 2023-01-01 00:00\n  Updated: 2023-01-02 00:00\n"
    );
    assert_eq!(text, expected);
    let bare = card("abc", "Plain", Column::Todo, None, &[]);
    let text = plain(&render_card_detail_table(&bare, &at(0)));
    assert!(!text.contains("Description"));
    assert!(!text.contains("Due:"));
    assert!(!text.contains("Tags:"));
}

#[test]
fn text_lines_follow_str_lines() {
    for s in ["", "a", "a\n", "a\n\nb", "a\r\nb\r\n", "\n", "x\ry", "a\n\r"] {
        let expected: Vec<String> = s.lines().map(|l| l.to_string()).collect();
        assert_eq!(lines_of(s), expected, "input {:?}", s);
    }
}

#[test]
fn padding_and_numbers() {
    assert_eq!(padded_right("ab", 4), "ab  ");
    assert_eq!(padded_right("abcdef", 4), "abcdef");
    assert_eq!(padded_left("7", 3), "  7");
    assert_eq!(padded_left("1234", 3), "1234");
    assert_eq!(repeated("ab", 3), "ababab");
    assert_eq!(i64_text(0), "0");
    assert_eq!(i64_text(-42), "-42");
    assert_eq!(i64_text(i64::MIN), "-9223372036854775808");
    assert_eq!(i64_text(1234567), "1234567");
}

#[test]
fn default_output_is_table() {
    assert_eq!(OutputFormat::default(), OutputFormat::Table);
}
