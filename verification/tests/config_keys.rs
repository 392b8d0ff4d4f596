//! Reading one setting by its dotted key.
use granary::error::GranaryError;
use granary::json::{parse_value, JsonValue};
use granary::services::global_config::config_value_at;

fn settings() -> JsonValue {
    parse_value(r#"{"actions":{},"runners":{"coder":{"command":"run-agent","args":["-p"]}}}"#).unwrap()
}

fn message(r: Result<&JsonValue, GranaryError>) -> String {
    match r {
        Err(GranaryError::GlobalConfig(m)) => m,
        _ => panic!("expected a settings error"),
    }
}

#[test]
fn whole_settings_without_key() {
    let v = settings();
    assert!(matches!(config_value_at(&v, None), Ok(JsonValue::Object(..))));
    assert!(matches!(config_value_at(&v, Some("")), Ok(JsonValue::Object(..))));
}

#[test]
fn nested_key_is_followed() {
    let v = settings();
    match config_value_at(&v, Some("runners.coder.command")) {
        Ok(JsonValue::Str(s)) => assert_eq!(s, "run-agent"),
        _ => panic!("expected the command"),
    }
}

#[test]
fn missing_key_names_the_path_so_far() {
    let v = settings();
    assert_eq!(message(config_value_at(&v, Some("runners.other"))), "Key not found: runners.other");
    assert_eq!(message(config_value_at(&v, Some("nope"))), "Key not found: nope");
}

#[test]
fn value_that_is_not_a_table_stops_the_walk() {
    let v = settings();
    assert_eq!(
        message(config_value_at(&v, Some("runners.coder.command.x"))),
        "'runners.coder.command' is not a table/section, cannot traverse further"
    );
}
