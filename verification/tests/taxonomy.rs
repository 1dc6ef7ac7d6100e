use error_taxonomy::catalog::MessageCatalog;
use error_taxonomy::error::ErrorValue;
use error_taxonomy::status::{http_status_of, status_for, StatusCategory};
use error_taxonomy::strutil::{join_range, split_str, str_eq, subject_term};
use error_taxonomy::table::{LoadError, MessageTable};
use error_taxonomy::translate::{translate, ConstraintSignal};

fn catalog_from(global: &str, service: &str) -> MessageCatalog {
    let g = MessageTable::from_source(global).expect("global table must parse");
    let s = MessageTable::from_source(service).expect("service table must parse");
    MessageCatalog::new(g, s)
}

fn empty_catalog() -> MessageCatalog {
    catalog_from("{}", "{}")
}

#[test]
fn subject_from_simple_constraint() {
    assert_eq!(subject_term("users_email_key"), "email");
}

#[test]
fn subject_from_multi_token_constraint() {
    assert_eq!(
        subject_term("users_first_name_last_name_key"),
        "first name last name"
    );
}

#[test]
fn subject_of_two_token_name_is_verbatim() {
    assert_eq!(subject_term("email_idx"), "email_idx");
}

#[test]
fn subject_of_empty_name_is_verbatim() {
    assert_eq!(subject_term(""), "");
}

#[test]
fn subject_of_three_tokens_drops_outer() {
    assert_eq!(subject_term("users_email_key_idx"), "email key");
    assert_eq!(subject_term("t_f_s"), "f");
}

#[test]
fn subject_of_only_separators_is_the_joined_middle() {
    assert_eq!(subject_term("___"), " ");
    assert_eq!(subject_term("a_b_c"), "b");
}

#[test]
fn split_keeps_empty_tokens() {
    let parts = split_str("a_b_c", '_');
    assert_eq!(parts, vec!["a".to_string(), "b".to_string(), "c".to_string()]);
    assert_eq!(split_str("", '_'), vec!["".to_string()]);
    assert_eq!(split_str("_", '_'), vec!["".to_string(), "".to_string()]);
    assert_eq!(split_str("__x", '_'), vec!["".to_string(), "".to_string(), "x".to_string()]);
}

#[test]
fn join_range_with_spaces() {
    let parts = vec!["a".to_string(), "b".to_string(), "c".to_string()];
    assert_eq!(join_range(&parts, 0, 3, ' '), "a b c");
    assert_eq!(join_range(&parts, 1, 2, ' '), "b");
    assert_eq!(join_range(&parts, 1, 1, ' '), "");
}

#[test]
fn str_eq_compares_contents() {
    assert!(str_eq("abc", "abc"));
    assert!(!str_eq("abc", "abd"));
    assert!(!str_eq("abc", "ab"));
    assert!(str_eq("", ""));
}

#[test]
fn translate_uniqueness_violation() {
    let signal = Some(ConstraintSignal {
        classification: "23505".to_string(),
        constraint_name: Some("users_email_key".to_string()),
    });
    let value = translate(&signal, "duplicate key value violates unique constraint");
    assert_eq!(value.message, "email already exists");
    assert_eq!(value.code, 1001);
    assert_eq!(value.status, StatusCategory::BadInput);
    assert!(value.details.is_none());
}

#[test]
fn translate_other_classification_is_internal() {
    let signal = Some(ConstraintSignal {
        classification: "23503".to_string(),
        constraint_name: Some("users_email_key".to_string()),
    });
    let value = translate(&signal, "foreign key violation");
    assert_eq!(value.code, 1000);
    assert_eq!(value.status, StatusCategory::Internal);
    assert_eq!(value.message, "foreign key violation");
}

#[test]
fn translate_missing_signal_is_internal() {
    let value = translate(&None, "connection reset");
    assert_eq!(value.code, 1000);
    assert_eq!(value.status, StatusCategory::Internal);
    assert_eq!(value.message, "connection reset");
}

#[test]
fn translate_uniqueness_without_constraint_name() {
    let signal = Some(ConstraintSignal {
        classification: "23505".to_string(),
        constraint_name: None,
    });
    let value = translate(&signal, "raw");
    assert_eq!(value.message, " already exists");
    assert_eq!(value.status, StatusCategory::BadInput);
}

#[test]
fn status_for_is_repeatable() {
    for code in [0u16, 999, 1000, 1004, 2005, 2150, 2250, 9999] {
        assert_eq!(status_for(code), status_for(code));
    }
}

#[test]
fn status_for_exact_codes() {
    assert_eq!(status_for(1000), StatusCategory::Internal);
    assert_eq!(status_for(1001), StatusCategory::BadInput);
    assert_eq!(status_for(1002), StatusCategory::NotFound);
    assert_eq!(status_for(1003), StatusCategory::Unauthorized);
    assert_eq!(status_for(1004), StatusCategory::Unprocessable);
    assert_eq!(status_for(1005), StatusCategory::Internal);
    assert_eq!(status_for(2000), StatusCategory::NotFound);
    assert_eq!(status_for(2001), StatusCategory::Conflict);
    assert_eq!(status_for(2002), StatusCategory::Unauthorized);
    assert_eq!(status_for(2003), StatusCategory::Conflict);
    assert_eq!(status_for(2004), StatusCategory::BadInput);
    assert_eq!(status_for(2005), StatusCategory::BadInput);
    assert_eq!(status_for(2006), StatusCategory::Unauthorized);
    assert_eq!(status_for(2007), StatusCategory::Unauthorized);
    assert_eq!(status_for(2008), StatusCategory::Forbidden);
    assert_eq!(status_for(2009), StatusCategory::TooManyRequests);
}

#[test]
fn status_for_bands() {
    assert_eq!(status_for(2100), StatusCategory::Unauthorized);
    assert_eq!(status_for(2199), StatusCategory::Unauthorized);
    assert_eq!(status_for(2200), StatusCategory::TooManyRequests);
    assert_eq!(status_for(2299), StatusCategory::TooManyRequests);
}

#[test]
fn status_for_unmatched_codes_default_to_internal() {
    assert_eq!(status_for(0), StatusCategory::Internal);
    assert_eq!(status_for(999), StatusCategory::Internal);
    assert_eq!(status_for(1006), StatusCategory::Internal);
    assert_eq!(status_for(2010), StatusCategory::Internal);
    assert_eq!(status_for(2099), StatusCategory::Internal);
    assert_eq!(status_for(2300), StatusCategory::Internal);
    assert_eq!(status_for(65535), StatusCategory::Internal);
}

#[test]
fn transport_status_table() {
    assert_eq!(http_status_of(StatusCategory::BadInput), 400);
    assert_eq!(http_status_of(StatusCategory::Unauthorized), 401);
    assert_eq!(http_status_of(StatusCategory::Forbidden), 403);
    assert_eq!(http_status_of(StatusCategory::NotFound), 404);
    assert_eq!(http_status_of(StatusCategory::Conflict), 409);
    assert_eq!(http_status_of(StatusCategory::Unprocessable), 422);
    assert_eq!(http_status_of(StatusCategory::TooManyRequests), 429);
    assert_eq!(http_status_of(StatusCategory::Internal), 500);
    assert_eq!(http_status_of(StatusCategory::BadGateway), 502);
    assert_eq!(http_status_of(StatusCategory::ServiceUnavailable), 503);
}

#[test]
fn catalog_routes_global_codes_to_global_table() {
    let catalog = catalog_from(
        "{\"1001\":\"global bad request\"}",
        "{\"1001\":\"service impostor\",\"2003\":\"service email exists\"}",
    );
    assert_eq!(catalog.get_error_message(1001, "fb"), "global bad request");
    assert_eq!(catalog.get_error_message(2003, "fb"), "service email exists");
}

#[test]
fn catalog_routes_service_codes_to_service_table() {
    let catalog = catalog_from("{\"2000\":\"global impostor\"}", "{}");
    assert_eq!(catalog.get_error_message(2000, "fallback wins"), "fallback wins");
    let catalog2 = catalog_from("{}", "{\"999\":\"service low\"}");
    assert_eq!(catalog2.get_error_message(999, "fb"), "service low");
}

#[test]
fn resolve_returns_fallback_iff_absent() {
    let table = MessageTable::from_source("{\"1500\":\"present\"}").unwrap();
    assert_eq!(table.resolve(1500, "fb"), "present");
    assert_eq!(table.resolve(1501, "fb"), "fb");
    assert_eq!(table.resolve(0, ""), "");
}

#[test]
fn malformed_source_fails_to_load() {
    assert_eq!(MessageTable::from_source("not json").unwrap_err(), LoadError::Malformed);
    assert_eq!(MessageTable::from_source("[1,2]").unwrap_err(), LoadError::Malformed);
    assert_eq!(
        MessageTable::from_source("{\"1000\": 5}").unwrap_err(),
        LoadError::Malformed
    );
}

#[test]
fn duplicate_keys_shadow_by_last_write() {
    let table = MessageTable::from_source("{\"1001\":\"first\",\"1001\":\"second\"}").unwrap();
    assert_eq!(table.resolve(1001, "fb"), "second");
}

#[test]
fn non_canonical_keys_name_no_code() {
    let table =
        MessageTable::from_source("{\"0500\":\"x\",\"+12\":\"y\",\"abc\":\"z\",\"70000\":\"w\"}")
            .unwrap();
    assert_eq!(table.resolve(500, "fb"), "fb");
    assert_eq!(table.resolve(12, "fb"), "fb");
    assert_eq!(table.resolve(65535, "fb"), "fb");
}

#[test]
fn table_from_pairs_shadows_and_skips() {
    let pairs: Vec<(String, String)> = vec![
        ("1001".to_string(), "first".to_string()),
        ("abc".to_string(), "never".to_string()),
        ("1001".to_string(), "second".to_string()),
        ("2000".to_string(), "kept".to_string()),
    ];
    let table = MessageTable::from_pairs(&pairs);
    assert_eq!(table.resolve(1001, "fb"), "second");
    assert_eq!(table.resolve(2000, "fb"), "kept");
    assert_eq!(table.resolve(1002, "fb"), "fb");
}

#[test]
fn split_with_trailing_separator() {
    assert_eq!(split_str("a_", '_'), vec!["a".to_string(), "".to_string()]);
    assert_eq!(split_str("_a", '_'), vec!["".to_string(), "a".to_string()]);
}

#[test]
fn error_value_new_resolves_through_catalog() {
    let catalog = catalog_from("{\"1002\":\"No such thing\"}", "{}");
    let value = ErrorValue::new(1002, Some(StatusCategory::NotFound), &catalog);
    assert_eq!(value.code, 1002);
    assert_eq!(value.message, "No such thing");
    assert_eq!(value.status, StatusCategory::NotFound);
}

#[test]
fn error_value_new_defaults_to_internal_and_code_fallback() {
    let catalog = empty_catalog();
    let value = ErrorValue::new(1234, None, &catalog);
    assert_eq!(value.message, "Error code: 1234");
    assert_eq!(value.status, StatusCategory::Internal);
}

#[test]
fn domain_constructors_carry_codes_and_statuses() {
    let catalog = empty_catalog();
    let cases: Vec<(ErrorValue, u16, StatusCategory, &str)> = vec![
        (ErrorValue::user_not_found(&catalog), 2000, StatusCategory::NotFound, "User not found"),
        (
            ErrorValue::user_already_exists(&catalog),
            2001,
            StatusCategory::Conflict,
            "User already exists",
        ),
        (
            ErrorValue::invalid_credentials(&catalog),
            2002,
            StatusCategory::Unauthorized,
            "Invalid credentials",
        ),
        (
            ErrorValue::email_already_exists(&catalog),
            2003,
            StatusCategory::Conflict,
            "Email already exists",
        ),
        (
            ErrorValue::weak_password(&catalog),
            2004,
            StatusCategory::BadInput,
            "Password is too weak",
        ),
        (
            ErrorValue::invalid_email_format(&catalog),
            2005,
            StatusCategory::BadInput,
            "Invalid email format",
        ),
        (
            ErrorValue::token_expired(&catalog),
            2006,
            StatusCategory::Unauthorized,
            "Token has expired",
        ),
        (
            ErrorValue::token_invalid(&catalog),
            2007,
            StatusCategory::Unauthorized,
            "Token is invalid",
        ),
        (
            ErrorValue::permission_denied(&catalog),
            2008,
            StatusCategory::Forbidden,
            "Permission denied",
        ),
        (
            ErrorValue::rate_limit_exceeded(&catalog),
            2009,
            StatusCategory::TooManyRequests,
            "Rate limit exceeded",
        ),
    ];
    for (value, code, status, fallback) in cases {
        assert_eq!(value.code, code);
        assert_eq!(value.status, status);
        assert_eq!(value.message, fallback);
        assert!(value.details.is_none());
    }
}

#[test]
fn domain_constructor_prefers_configured_message() {
    let catalog = catalog_from("{}", "{\"2000\":\"Niemand hier\"}");
    let value = ErrorValue::user_not_found(&catalog);
    assert_eq!(value.message, "Niemand hier");
}

#[test]
fn generic_constructors_carry_their_codes() {
    assert_eq!(ErrorValue::internal_error("x".to_string()).code, 1000);
    assert_eq!(ErrorValue::bad_request("x".to_string()).code, 1001);
    assert_eq!(ErrorValue::not_found("x".to_string()).code, 1002);
    assert_eq!(ErrorValue::unauthorized("x".to_string()).code, 1003);
    assert_eq!(ErrorValue::validation_error("x".to_string()).code, 1004);
    assert_eq!(ErrorValue::database_error("x".to_string()).code, 1005);
    assert_eq!(
        ErrorValue::validation_error("x".to_string()).status,
        StatusCategory::Unprocessable
    );
    assert_eq!(ErrorValue::database_error("x".to_string()).status, StatusCategory::Internal);
    assert_eq!(ErrorValue::bad_request("why".to_string()).message, "why");
}

#[test]
fn status_codes_of_error_values() {
    assert_eq!(ErrorValue::internal_error("x".to_string()).status_code(), 500);
    assert_eq!(ErrorValue::bad_request("x".to_string()).status_code(), 400);
    assert_eq!(ErrorValue::not_found("x".to_string()).status_code(), 404);
    assert_eq!(ErrorValue::validation_error("x".to_string()).status_code(), 422);
    let catalog = empty_catalog();
    assert_eq!(ErrorValue::rate_limit_exceeded(&catalog).status_code(), 429);
    assert_eq!(ErrorValue::permission_denied(&catalog).status_code(), 403);
}
