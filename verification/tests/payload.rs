use error_taxonomy::aggregate::extract_errors;
use error_taxonomy::config::AppConfig;
use error_taxonomy::dto::{
    validate_email_strict, validate_name, validate_phone_strict, CreateUserDto,
};
use error_taxonomy::error::ErrorValue;
use error_taxonomy::health::{HealthResponse, ReadinessResponse};
use error_taxonomy::numbers::{canonical_code, parse_u16, parse_u32, render_u16};
use error_taxonomy::status::StatusCategory;

fn failures(entries: &[(&str, &[&str])]) -> Vec<(String, Vec<String>)> {
    entries
        .iter()
        .map(|(f, ms)| (f.to_string(), ms.iter().map(|m| m.to_string()).collect()))
        .collect()
}

#[test]
fn aggregate_keeps_first_failure_per_field() {
    let input = failures(&[
        ("email", &["bad email", "also bad"]),
        ("name", &["bad name"]),
        ("email", &["late duplicate"]),
    ]);
    let details = extract_errors(&input);
    assert_eq!(details.len(), 2);
    assert_eq!(details[0].field, "email");
    assert_eq!(details[0].message, "bad email");
    assert_eq!(details[1].field, "name");
    assert_eq!(details[1].message, "bad name");
}

#[test]
fn aggregate_preserves_first_seen_order() {
    let input = failures(&[("z", &["1"]), ("a", &["2"]), ("m", &["3"])]);
    let details = extract_errors(&input);
    let fields: Vec<&str> = details.iter().map(|d| d.field.as_str()).collect();
    assert_eq!(fields, vec!["z", "a", "m"]);
}

#[test]
fn aggregate_skips_fields_without_failures() {
    let input = failures(&[("empty", &[]), ("real", &["msg"])]);
    let details = extract_errors(&input);
    assert_eq!(details.len(), 1);
    assert_eq!(details[0].field, "real");
}

#[test]
fn aggregate_of_nothing_is_empty() {
    let details = extract_errors(&failures(&[]));
    assert!(details.is_empty());
}

#[test]
fn validation_failure_carries_details() {
    let input = failures(&[("email", &["invalid email format"])]);
    let value = ErrorValue::validation_failure("validation failed".to_string(), &input);
    assert_eq!(value.code, 1004);
    assert_eq!(value.status, StatusCategory::Unprocessable);
    let details = value.details.as_ref().unwrap();
    assert_eq!(details.len(), 1);
    assert_eq!(details[0].field, "email");
}

#[test]
fn document_without_details_has_null_errors() {
    let value = ErrorValue::bad_request("plain".to_string());
    assert_eq!(
        value.to_document(),
        "{\"code\":1001,\"message\":\"plain\",\"errors\":null}"
    );
}

#[test]
fn document_escapes_message_characters() {
    let value = ErrorValue::internal_error("say \"hi\"\\\n\u{1}".to_string());
    assert_eq!(
        value.to_document(),
        "{\"code\":1000,\"message\":\"say \\\"hi\\\"\\\\\\n\\u0001\",\"errors\":null}"
    );
}

#[test]
fn document_with_details_renders_array() {
    let input = failures(&[("email", &["bad"]), ("name", &["worse"])]);
    let value = ErrorValue::validation_failure("validation failed".to_string(), &input);
    assert_eq!(
        value.to_document(),
        "{\"code\":1004,\"message\":\"validation failed\",\"errors\":[{\"field\":\"email\",\"message\":\"bad\"},{\"field\":\"name\",\"message\":\"worse\"}]}"
    );
}

#[test]
fn document_with_empty_details_renders_empty_array() {
    let value = ErrorValue::validation_failure("nothing".to_string(), &failures(&[]));
    assert_eq!(
        value.to_document(),
        "{\"code\":1004,\"message\":\"nothing\",\"errors\":[]}"
    );
}

#[test]
fn render_decimal_digits() {
    assert_eq!(render_u16(0), "0");
    assert_eq!(render_u16(7), "7");
    assert_eq!(render_u16(1001), "1001");
    assert_eq!(render_u16(65535), "65535");
}

#[test]
fn parse_u16_follows_std_syntax() {
    assert_eq!(parse_u16("8080"), Some(8080));
    assert_eq!(parse_u16("+80"), Some(80));
    assert_eq!(parse_u16("0080"), Some(80));
    assert_eq!(parse_u16("0"), Some(0));
    assert_eq!(parse_u16(""), None);
    assert_eq!(parse_u16("+"), None);
    assert_eq!(parse_u16("65536"), None);
    assert_eq!(parse_u16("12a"), None);
    assert_eq!(parse_u16("-1"), None);
    assert_eq!(parse_u16("999999999999999999999"), None);
}

#[test]
fn parse_u32_follows_std_syntax() {
    assert_eq!(parse_u32("4294967295"), Some(4294967295));
    assert_eq!(parse_u32("4294967296"), None);
    assert_eq!(parse_u32("10"), Some(10));
}

#[test]
fn canonical_codes_reject_non_canonical_forms() {
    assert_eq!(canonical_code("0"), Some(0));
    assert_eq!(canonical_code("1001"), Some(1001));
    assert_eq!(canonical_code("65535"), Some(65535));
    assert_eq!(canonical_code("00"), None);
    assert_eq!(canonical_code("0500"), None);
    assert_eq!(canonical_code("+1"), None);
    assert_eq!(canonical_code("65536"), None);
    assert_eq!(canonical_code(""), None);
}

#[test]
fn config_applies_defaults() {
    let config = AppConfig::new(None, None, "postgres://db".to_string(), None, None, None, None);
    assert_eq!(config.server.host, "127.0.0.1");
    assert_eq!(config.server.port, 8080);
    assert_eq!(config.database.url, "postgres://db");
    assert_eq!(config.database.max_connections, 10);
    assert_eq!(config.redis.url, "redis://localhost:6379");
    assert_eq!(config.mongodb.url, "mongodb://localhost:27017");
    assert_eq!(config.mongodb.database, "user_services_db");
}

#[test]
fn config_takes_supplied_values() {
    let config = AppConfig::new(
        Some("0.0.0.0".to_string()),
        Some("9000".to_string()),
        "postgres://db".to_string(),
        Some("25".to_string()),
        Some("redis://other:1".to_string()),
        Some("mongodb://other:2".to_string()),
        Some("other_db".to_string()),
    );
    assert_eq!(config.server.host, "0.0.0.0");
    assert_eq!(config.server.port, 9000);
    assert_eq!(config.database.max_connections, 25);
    assert_eq!(config.redis.url, "redis://other:1");
    assert_eq!(config.mongodb.url, "mongodb://other:2");
    assert_eq!(config.mongodb.database, "other_db");
}

#[test]
fn config_falls_back_on_unparseable_numbers() {
    let config = AppConfig::new(
        None,
        Some("not-a-port".to_string()),
        "db".to_string(),
        Some("99999999999999999999".to_string()),
        None,
        None,
        None,
    );
    assert_eq!(config.server.port, 8080);
    assert_eq!(config.database.max_connections, 10);
}

#[test]
fn health_response_is_ok() {
    let health = HealthResponse::new("user_services".to_string(), "0.1.0".to_string());
    assert_eq!(health.status, "ok");
    assert_eq!(health.service, "user_services");
    assert_eq!(health.version, "0.1.0");
}

#[test]
fn readiness_requires_every_dependency() {
    let ready = ReadinessResponse::new(true, true, true);
    assert!(ready.ready);
    assert_eq!(ready.http_status(), 200);
    let unready = ReadinessResponse::new(true, false, true);
    assert!(!unready.ready);
    assert!(unready.database);
    assert!(!unready.redis);
    assert_eq!(unready.http_status(), 503);
}

#[test]
fn email_validation_accepts_and_rejects() {
    assert!(validate_email_strict("a@b.c").is_ok());
    assert!(validate_email_strict("first.last@example.org").is_ok());
    assert!(validate_email_strict("ab.c").is_err());
    assert!(validate_email_strict("a@b@c.d").is_err());
    assert!(validate_email_strict("a b@c.d").is_err());
    assert!(validate_email_strict("a@bc").is_err());
    assert!(validate_email_strict("a@.c").is_err());
    assert!(validate_email_strict("a@b.").is_err());
    assert!(validate_email_strict("@b.c").is_err());
    assert!(validate_email_strict("").is_err());
    assert_eq!(validate_email_strict("nope").unwrap_err(), "invalid email format");
}

#[test]
fn name_validation_accepts_and_rejects() {
    assert!(validate_name("Jo").is_ok());
    assert!(validate_name("Anne-Marie Smith").is_ok());
    assert!(validate_name("J").is_err());
    assert!(validate_name("J0hn").is_err());
    assert!(validate_name("").is_err());
    assert_eq!(validate_name("!").unwrap_err(), "invalid name format");
}

#[test]
fn phone_validation_accepts_and_rejects() {
    assert!(validate_phone_strict("1234567890").is_ok());
    assert!(validate_phone_strict("+123456789012345").is_ok());
    assert!(validate_phone_strict("123456789").is_err());
    assert!(validate_phone_strict("+1234567890123456").is_err());
    assert!(validate_phone_strict("12345a7890").is_err());
    assert!(validate_phone_strict("+").is_err());
    assert_eq!(validate_phone_strict("x").unwrap_err(), "invalid phone format");
}

#[test]
fn dto_validation_reports_failing_fields_in_order() {
    let dto = CreateUserDto {
        email: "not-an-email".to_string(),
        first_name: "Jane".to_string(),
        last_name: "Doe".to_string(),
        password: "secret".to_string(),
        phone_number: "123".to_string(),
    };
    let fails = dto.validate();
    assert_eq!(fails.len(), 2);
    assert_eq!(fails[0].0, "email");
    assert_eq!(fails[0].1, vec!["invalid email format".to_string()]);
    assert_eq!(fails[1].0, "phone_number");
    assert_eq!(fails[1].1, vec!["invalid phone format".to_string()]);
}

#[test]
fn dto_validation_of_valid_payload_is_empty() {
    let dto = CreateUserDto {
        email: "jane.doe@example.org".to_string(),
        first_name: "Jane".to_string(),
        last_name: "Doe".to_string(),
        password: "secret".to_string(),
        phone_number: "+12025550123".to_string(),
    };
    assert!(dto.validate().is_empty());
}

#[test]
fn dto_validation_feeds_aggregation() {
    let dto = CreateUserDto {
        email: "bad".to_string(),
        first_name: "X".to_string(),
        last_name: "Doe".to_string(),
        password: "secret".to_string(),
        phone_number: "bad".to_string(),
    };
    let value = ErrorValue::validation_failure("validation failed".to_string(), &dto.validate());
    let details = value.details.as_ref().unwrap();
    let fields: Vec<&str> = details.iter().map(|d| d.field.as_str()).collect();
    assert_eq!(fields, vec!["email", "first_name", "phone_number"]);
}
