use blaze::commands::{
    answer_is_yes, build_card_create, build_card_update, build_plan_create,
    build_plan_file_create, edits_tags, is_confirmation, merge_tags, ping_result, AddOptions,
    EditOptions,
};
use blaze::config::{token_from_file_text, Config, DEFAULT_URL};
use blaze::dates::{due_from_day, end_of_day, format_instant, parse_due_date, LONG_DATE, SHORT_DATE};
use blaze::error::BlazeError;
use blaze::types::{Column, Priority, Timestamp};

fn strings(list: &[&str]) -> Vec<String> {
    list.iter().map(|s| s.to_string()).collect()
}

fn edit(card_id: &str) -> EditOptions {
    EditOptions {
        card_id: card_id.to_string(),
        title: None,
        description: None,
        column: None,
        priority: None,
        tags_add: Vec::new(),
        tags_remove: Vec::new(),
        due: None,
        clear_due: false,
    }
}

#[test]
fn due_date_is_end_of_day_utc() {
    assert_eq!(parse_due_date("2023-01-01"), Ok(Timestamp { secs: 1672617599, nanos: 0 }));
    assert_eq!(parse_due_date("1970-01-01"), Ok(Timestamp { secs: 86399, nanos: 0 }));
}

#[test]
fn malformed_due_date_is_invalid_input() {
    assert_eq!(
        parse_due_date("01/02/2023"),
        Err(BlazeError::InvalidInput("Invalid date format '01/02/2023'. Use YYYY-MM-DD".to_string()))
    );
    assert!(matches!(parse_due_date("2023-02-30"), Err(BlazeError::InvalidInput(_))));
}

#[test]
fn day_numbers_map_to_instants() {
    assert_eq!(end_of_day(719163), Timestamp { secs: 86399, nanos: 0 });
    assert_eq!(end_of_day(719162), Timestamp { secs: -1, nanos: 0 });
    assert_eq!(due_from_day("x", Some(719164)), Ok(Timestamp { secs: 172799, nanos: 0 }));
    assert!(matches!(due_from_day("x", None), Err(BlazeError::InvalidInput(_))));
}

#[test]
fn instants_print_in_patterns() {
    let t = Timestamp { secs: 1672531200 + 3600 * 13 + 60 * 5, nanos: 0 };
    assert_eq!(format_instant(&t, LONG_DATE), "2023-01-01 13:05");
    assert_eq!(format_instant(&t, SHORT_DATE), "Jan 01");
    let far = Timestamp { secs: i64::MAX, nanos: 0 };
    assert_eq!(format_instant(&far, LONG_DATE), "?");
}

#[test]
fn add_builds_card_body() {
    let created = build_card_create(AddOptions {
        title: "Write docs".to_string(),
        description: Some("all of them".to_string()),
        column: Column::Todo,
        priority: Priority::High,
        tags: strings(&["docs"]),
        due: Some("2023-01-01".to_string()),
    })
    .unwrap();
    assert_eq!(created.title, "Write docs");
    assert_eq!(created.description.as_deref(), Some("all of them"));
    assert_eq!(created.priority, Priority::High);
    assert_eq!(created.column, Column::Todo);
    assert_eq!(created.tags, strings(&["docs"]));
    assert_eq!(created.due_date, Some(Timestamp { secs: 1672617599, nanos: 0 }));
}

#[test]
fn add_rejects_bad_due_date() {
    let r = build_card_create(AddOptions {
        title: "t".to_string(),
        description: None,
        column: Column::Backlog,
        priority: Priority::Low,
        tags: Vec::new(),
        due: Some("tomorrow".to_string()),
    });
    assert!(matches!(r, Err(BlazeError::InvalidInput(_))));
}

#[test]
fn tags_merge_adds_missing_then_removes() {
    let merged = merge_tags(strings(&["a", "b"]), &strings(&["b", "c", "c"]), &strings(&["a"]));
    assert_eq!(merged, strings(&["b", "c"]));
    assert_eq!(merge_tags(Vec::new(), &Vec::new(), &Vec::new()), Vec::<String>::new());
}

#[test]
fn edit_without_changes_is_rejected() {
    let r = build_card_update(edit("abc"), None);
    assert_eq!(
        r,
        Err(BlazeError::InvalidInput("No fields to update. Specify at least one option.".to_string()))
    );
}

#[test]
fn edit_clearing_due_date_is_a_change() {
    let mut o = edit("abc");
    o.clear_due = true;
    o.due = Some("garbage".to_string());
    let u = build_card_update(o, None).unwrap();
    assert_eq!(u.due_date, None);
    assert_eq!(u.title, None);
}

#[test]
fn edit_with_tags_uses_current_tags() {
    let mut o = edit("abc");
    o.tags_add = strings(&["new"]);
    o.tags_remove = strings(&["old"]);
    assert!(edits_tags(&o));
    let u = build_card_update(o, Some(strings(&["old", "keep"]))).unwrap();
    assert_eq!(u.tags, Some(strings(&["keep", "new"])));
    assert_eq!(u.agent_assignable, None);
}

#[test]
fn edit_sets_fields() {
    let mut o = edit("abc");
    o.title = Some("New".to_string());
    o.priority = Some(Priority::Urgent);
    o.due = Some("2023-01-01".to_string());
    assert!(!edits_tags(&o));
    let u = build_card_update(o, None).unwrap();
    assert_eq!(u.title.as_deref(), Some("New"));
    assert_eq!(u.priority, Some(Priority::Urgent));
    assert_eq!(u.due_date, Some(Timestamp { secs: 1672617599, nanos: 0 }));
    assert_eq!(u.tags, None);
}

#[test]
fn edit_with_bad_date_is_rejected() {
    let mut o = edit("abc");
    o.title = Some("New".to_string());
    o.due = Some("2023-13-01".to_string());
    assert!(matches!(build_card_update(o, None), Err(BlazeError::InvalidInput(_))));
}

#[test]
fn confirmation_answers() {
    assert!(is_confirmation("y\n"));
    assert!(is_confirmation("  Y  "));
    assert!(!is_confirmation("yes"));
    assert!(!is_confirmation(""));
    assert!(!is_confirmation("n"));
    assert!(answer_is_yes("y"));
    assert!(!answer_is_yes(" y"));
}

#[test]
fn token_file_text() {
    assert_eq!(token_from_file_text("  secret\n"), Some("secret".to_string()));
    assert_eq!(token_from_file_text(" \n\t"), None);
    assert_eq!(token_from_file_text(""), None);
}

#[test]
fn url_and_token_precedence() {
    let cfg = Config { url: Some("http://cfg".to_string()), token: Some("file-token".to_string()) };
    assert_eq!(cfg.effective_url(Some("http://flag".to_string())), "http://flag");
    assert_eq!(cfg.effective_url(None), "http://cfg");
    assert_eq!(Config::default().effective_url(None), DEFAULT_URL);
    assert_eq!(DEFAULT_URL, "http://localhost:8080");
    assert_eq!(cfg.effective_token(Some("flag".to_string())), Some("flag".to_string()));
    assert_eq!(cfg.effective_token(None), Some("file-token".to_string()));
    assert_eq!(Config::default().effective_token(None), None);
    let loaded = Config { url: None, token: None }.with_token(Some("t".to_string()));
    assert_eq!(loaded.token.as_deref(), Some("t"));
}

#[test]
fn plan_bodies() {
    let p = build_plan_create("Plan".to_string(), Some("overview.md".to_string()));
    assert_eq!(p.title, "Plan");
    assert_eq!(p.files.len(), 1);
    assert_eq!(p.files[0].name, "overview.md");
    assert_eq!(p.files[0].content, "");
    assert!(build_plan_create("Plan".to_string(), None).files.is_empty());
    let f = build_plan_file_create("a.md");
    assert_eq!(f.name, "a.md");
    assert!(f.content.is_empty());
}

#[test]
fn ping_verdicts() {
    let ok = ping_result("http://h", &Ok("ok".to_string()));
    assert!(ok.ok);
    assert_eq!(ok.url, "http://h");
    assert_eq!(ok.error, None);
    let odd = ping_result("http://h", &Ok("degraded".to_string()));
    assert!(!odd.ok);
    assert_eq!(odd.error.as_deref(), Some("Unexpected status: degraded"));
    let failed = ping_result("http://h", &Err(BlazeError::Api { status: 503, message: "down".to_string() }));
    assert!(!failed.ok);
    assert_eq!(failed.error.as_deref(), Some("API error (503): down"));
}

#[test]
fn error_messages() {
    assert_eq!(BlazeError::NotFound("ab".to_string()).message(), "Card not found: ab");
    assert_eq!(
        BlazeError::Ambiguous { prefix: "ab".to_string(), count: 12 }.message(),
        "Ambiguous card id 'ab': 12 cards match; use a longer prefix"
    );
    assert_eq!(BlazeError::Other("plain".to_string()).message(), "plain");
    assert_eq!(BlazeError::Auth("x".to_string()).message(), "Authentication failed: x");
}
