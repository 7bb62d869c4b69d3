use blaze::filter::{card_passes, filter_cards, ListFilters};
use blaze::types::{Card, Column, Priority, Timestamp};

fn at(secs: i64) -> Timestamp {
    Timestamp { secs, nanos: 0 }
}

const JAN_1_2023: i64 = 1672531200;
const JAN_1_2024: i64 = 1704067200;

fn card(id: &str, priority: Priority, due: Option<Timestamp>, tags: &[&str]) -> Card {
    Card {
        id: id.to_string(),
        title: format!("card {}", id),
        description: None,
        priority,
        column: Column::Todo,
        due_date: due,
        tags: tags.iter().map(|t| t.to_string()).collect(),
        created_at: at(0),
        updated_at: at(0),
        position: 0,
        agent_assignable: false,
        agent_status: None,
        agent_progress: Vec::new(),
        acceptance_criteria: Vec::new(),
        acceptance_checked: Vec::new(),
        blocked_reason: None,
    }
}

#[test]
fn high_priority_overdue_scenario() {
    let cards = vec![
        card("abc123456789", Priority::High, Some(at(JAN_1_2023)), &[]),
        card("abc987654321", Priority::Low, None, &[]),
    ];
    let filters = ListFilters {
        priorities: vec![Priority::High],
        overdue: true,
        ..ListFilters::default()
    };
    let out = filter_cards(cards.clone(), &filters, at(JAN_1_2024));
    assert_eq!(out, vec![cards[0].clone()]);
}

#[test]
fn empty_filter_keeps_everything_in_order() {
    let cards = vec![
        card("c1", Priority::Low, None, &["x"]),
        card("c2", Priority::Urgent, Some(at(5)), &[]),
        card("c3", Priority::Medium, None, &["y"]),
    ];
    let out = filter_cards(cards.clone(), &ListFilters::default(), at(JAN_1_2024));
    assert_eq!(out, cards);
}

#[test]
fn filter_order_does_not_matter() {
    let cards = vec![
        card("c1", Priority::High, None, &["x"]),
        card("c2", Priority::High, None, &["y"]),
        card("c3", Priority::Low, None, &["x"]),
        card("c4", Priority::High, None, &["z", "x"]),
    ];
    let by_priority = ListFilters { priorities: vec![Priority::High], ..ListFilters::default() };
    let by_tag = ListFilters { tags: vec!["x".to_string()], ..ListFilters::default() };
    let now = at(JAN_1_2024);
    let a = filter_cards(filter_cards(cards.clone(), &by_priority, now), &by_tag, now);
    let b = filter_cards(filter_cards(cards.clone(), &by_tag, now), &by_priority, now);
    assert_eq!(a, b);
    let ids: Vec<&str> = a.iter().map(|c| c.id.as_str()).collect();
    assert_eq!(ids, vec!["c1", "c4"]);
}

#[test]
fn overdue_is_strictly_before_now() {
    let now = at(JAN_1_2024);
    let overdue = ListFilters { overdue: true, ..ListFilters::default() };
    assert!(card_passes(&overdue, &card("p", Priority::Low, Some(at(JAN_1_2024 - 1)), &[]), &now));
    assert!(!card_passes(&overdue, &card("n", Priority::Low, Some(now), &[]), &now));
    assert!(!card_passes(&overdue, &card("f", Priority::Low, Some(at(JAN_1_2024 + 1)), &[]), &now));
    assert!(!card_passes(&overdue, &card("none", Priority::Low, None, &[]), &now));
    let half_second_early = Timestamp { secs: JAN_1_2024 - 1, nanos: 500_000_000 };
    assert!(card_passes(&overdue, &card("h", Priority::Low, Some(half_second_early), &[]), &now));
}

#[test]
fn tags_match_any_requested_tag() {
    let now = at(0);
    let f = ListFilters {
        tags: vec!["bug".to_string(), "ui".to_string()],
        ..ListFilters::default()
    };
    assert!(card_passes(&f, &card("a", Priority::Low, None, &["ui"]), &now));
    assert!(card_passes(&f, &card("b", Priority::Low, None, &["docs", "bug"]), &now));
    assert!(!card_passes(&f, &card("c", Priority::Low, None, &["docs"]), &now));
    assert!(!card_passes(&f, &card("d", Priority::Low, None, &[]), &now));
}

#[test]
fn priorities_match_any_requested_priority() {
    let now = at(0);
    let f = ListFilters {
        priorities: vec![Priority::High, Priority::Urgent],
        ..ListFilters::default()
    };
    assert!(card_passes(&f, &card("a", Priority::Urgent, None, &[]), &now));
    assert!(!card_passes(&f, &card("b", Priority::Medium, None, &[]), &now));
}

#[test]
fn default_filters_are_inactive() {
    let f = ListFilters::default();
    assert!(f.column.is_none());
    assert!(f.priorities.is_empty());
    assert!(f.tags.is_empty());
    assert!(!f.overdue);
    assert!(!f.include_archived);
}
