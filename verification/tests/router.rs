use webhook_manager::errors::ServerError;
use webhook_manager::server::router::{
    build_task_key_from_task, check_client_key_pattern, check_key_pattern, select_user_id,
    task_key_for_creation, user_tasks_pattern, validate_task_key,
};
use webhook_manager::storage::models::Task;

#[test]
fn builds_task_key_from_task_identity_fields() {
    let task = Task::default();

    let key = build_task_key_from_task(&task);

    assert_eq!(key, "guest:general:96366fb0-0c0f-4671-8f3f-8a98641d11ae");
}

#[test]
fn accepts_generated_task_key_pattern() {
    let task = Task::default();
    let key = build_task_key_from_task(&task);

    assert!(check_key_pattern(&key));
}

#[test]
fn uses_query_when_header_is_missing() {
    let user_id = select_user_id(Some("query-user"), None).unwrap();

    assert_eq!(user_id, "query-user");
}

#[test]
fn uses_header_when_query_is_missing() {
    let user_id = select_user_id(None, Some("header-user")).unwrap();

    assert_eq!(user_id, "header-user");
}

#[test]
fn prefers_header_over_query() {
    let user_id = select_user_id(Some("query-user"), Some("header-user")).unwrap();

    assert_eq!(user_id, "header-user");
}

#[test]
fn falls_back_to_query_when_header_is_blank() {
    let user_id = select_user_id(Some("query-user"), Some("   ")).unwrap();

    assert_eq!(user_id, "query-user");
}

#[test]
fn returns_error_when_both_sources_are_missing() {
    let error = select_user_id(None, None).unwrap_err();

    assert!(matches!(error, ServerError::IvalidKeyFormat(_)));
}

#[test]
fn returns_error_when_both_sources_are_blank() {
    let error = select_user_id(Some("   "), Some(" ")).unwrap_err();

    assert!(matches!(error, ServerError::IvalidKeyFormat(_)));
}

#[test]
fn select_user_id_trims_the_chosen_value() {
    assert_eq!(select_user_id(None, Some("  bob\t")).unwrap(), "bob");
    assert_eq!(select_user_id(Some(" alice "), None).unwrap(), "alice");
}

#[test]
fn missing_user_error_carries_its_message() {
    match select_user_id(Some(""), None) {
        Err(ServerError::IvalidKeyFormat(m)) => {
            assert_eq!(m, "user_id is required in query or X-User-ID header")
        }
        other => panic!("unexpected {:?}", other),
    }
}

#[test]
fn task_key_pattern_accepts_three_fields() {
    assert!(check_key_pattern("guest:general:384f4d80-4ed6-4032-2569-f02fd5e1afb9"));
    assert!(check_key_pattern("a:b:c"));
    assert!(check_key_pattern("a b:*:c-d"));
}

#[test]
fn task_key_pattern_refuses_other_shapes() {
    assert!(!check_key_pattern(""));
    assert!(!check_key_pattern("a:b"));
    assert!(!check_key_pattern("a:b:c:d"));
    assert!(!check_key_pattern("a::c"));
    assert!(!check_key_pattern(":b:c"));
    assert!(!check_key_pattern("a:b:"));
    assert!(!check_key_pattern("abc"));
}

#[test]
fn user_tasks_pattern_check() {
    assert!(check_client_key_pattern("guest:*"));
    assert!(check_client_key_pattern("a*b:*"));
    assert!(!check_client_key_pattern(":*"));
    assert!(!check_client_key_pattern("guest:x"));
    assert!(!check_client_key_pattern("a:b:*"));
    assert!(!check_client_key_pattern("guest*"));
}

#[test]
fn validate_task_key_refuses_with_key_format_error() {
    assert!(validate_task_key("u:s:t").is_ok());
    match validate_task_key("u:s") {
        Err(ServerError::IvalidKeyFormat(m)) => assert_eq!(m, "Key format error"),
        other => panic!("unexpected {:?}", other),
    }
}

#[test]
fn key_for_creation_needs_plain_user_and_service() {
    let mut task = Task::default();
    assert_eq!(
        task_key_for_creation(&task).unwrap(),
        "guest:general:96366fb0-0c0f-4671-8f3f-8a98641d11ae"
    );
    task.user_id = "a:b".to_string();
    assert!(matches!(task_key_for_creation(&task), Err(ServerError::IvalidKeyFormat(_))));
    task.user_id = String::new();
    assert!(matches!(task_key_for_creation(&task), Err(ServerError::IvalidKeyFormat(_))));
    task.user_id = "bob".to_string();
    task.service = String::new();
    assert!(matches!(task_key_for_creation(&task), Err(ServerError::IvalidKeyFormat(_))));
}

#[test]
fn task_key_uses_the_hyphenated_lower_case_uuid() {
    let mut task = Task::default();
    task.user_id = "u".to_string();
    task.service = "s".to_string();
    task.task_id = 0xA1A2A3A4B1B2C1C2D1D2D3D4D5D6D7D8;
    assert_eq!(build_task_key_from_task(&task), "u:s:a1a2a3a4-b1b2-c1c2-d1d2-d3d4d5d6d7d8");
    task.task_id = 0;
    assert_eq!(build_task_key_from_task(&task), "u:s:00000000-0000-0000-0000-000000000000");
}

#[test]
fn listing_pattern_is_user_and_star() {
    assert_eq!(user_tasks_pattern(Some("guest"), None).unwrap(), "guest:*");
    assert_eq!(user_tasks_pattern(Some("q"), Some(" h ")).unwrap(), "h:*");
    assert!(user_tasks_pattern(None, Some("  ")).is_err());
}

#[test]
fn unicode_white_space_counts_as_blank() {
    assert!(select_user_id(None, Some("\u{3000}\u{a0}\n")).is_err());
    assert_eq!(select_user_id(Some("\u{2003}carol\u{85}"), None).unwrap(), "carol");
}
