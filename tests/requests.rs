use blaze::error::BlazeError;
use blaze::request::{
    bearer_value, card_move_path, card_path, cards_path, delete_outcome, is_success,
    normalize_base_url, plan_file_path, plan_files_path, plan_path, plans_path, request_url,
    response_outcome,
};
use blaze::types::{Column, PlanStatus};

#[test]
fn base_url_loses_trailing_slashes() {
    assert_eq!(normalize_base_url("http://host:8080/"), "http://host:8080");
    assert_eq!(normalize_base_url("http://host:8080///"), "http://host:8080");
    assert_eq!(normalize_base_url("http://host/api"), "http://host/api");
    assert_eq!(normalize_base_url("///"), "");
    assert_eq!(normalize_base_url(""), "");
}

#[test]
fn urls_join_base_and_path() {
    assert_eq!(request_url("http://h", "/health"), "http://h/health");
}

#[test]
fn bearer_header_only_with_token() {
    assert_eq!(bearer_value(&Some("tok".to_string())), Some("Bearer tok".to_string()));
    assert_eq!(bearer_value(&None), None);
}

#[test]
fn card_paths() {
    assert_eq!(cards_path(None), "/api/cards");
    assert_eq!(cards_path(Some(Column::InProgress)), "/api/cards?column=in_progress");
    assert_eq!(card_path("abc"), "/api/cards/abc");
    assert_eq!(card_move_path("abc"), "/api/cards/abc/move");
}

#[test]
fn plan_paths() {
    assert_eq!(plans_path(None), "/api/plans");
    assert_eq!(plans_path(Some(PlanStatus::Approved)), "/api/plans?status=approved");
    assert_eq!(plan_path("p1"), "/api/plans/p1");
    assert_eq!(plan_files_path("p1"), "/api/plans/p1/files");
    assert_eq!(plan_file_path("p1", "a.md"), "/api/plans/p1/files/a.md");
}

#[test]
fn status_classes() {
    assert!(is_success(200));
    assert!(is_success(204));
    assert!(is_success(299));
    assert!(!is_success(199));
    assert!(!is_success(300));
    assert!(!is_success(404));
}

#[test]
fn unauthorized_is_auth_error() {
    assert_eq!(
        response_outcome(401, "nope".to_string()),
        Err(BlazeError::Auth("Invalid or missing token".to_string()))
    );
    assert_eq!(
        delete_outcome(401, String::new()),
        Err(BlazeError::Auth("Invalid or missing token".to_string()))
    );
}

#[test]
fn other_failures_carry_status_and_body() {
    assert_eq!(
        response_outcome(404, "missing".to_string()),
        Err(BlazeError::Api { status: 404, message: "missing".to_string() })
    );
    assert_eq!(
        delete_outcome(500, "boom".to_string()),
        Err(BlazeError::Api { status: 500, message: "boom".to_string() })
    );
}

#[test]
fn success_hands_body_on() {
    assert_eq!(response_outcome(200, "{}".to_string()), Ok("{}".to_string()));
    assert_eq!(delete_outcome(204, String::new()), Ok(()));
    assert_eq!(delete_outcome(200, "{}".to_string()), Ok(()));
}
