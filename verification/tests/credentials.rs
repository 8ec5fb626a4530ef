use anylist_cli::auth::{
    load_credentials, merge_credentials, parse_bool, read_tokens, save_credentials,
    store_credentials, Credentials,
};
use anylist_cli::error::CliError;

fn sample() -> Credentials {
    Credentials {
        access_token: String::from("acc-123"),
        refresh_token: String::from("ref-456"),
        user_id: String::from("user-789"),
        is_premium: true,
    }
}

fn invalid(label: &str) -> CliError {
    CliError::ConfigFileInvalid(String::from(label))
}

#[test]
fn saved_session_loads_back() {
    let session = sample();
    let text = save_credentials(None, &session).unwrap();
    assert_eq!(read_tokens(Some(text.as_str())), Ok(session));
}

#[test]
fn saved_session_loads_back_when_not_premium() {
    let session = Credentials { is_premium: false, ..sample() };
    let text = save_credentials(None, &session).unwrap();
    assert_eq!(read_tokens(Some(text.as_str())), Ok(session));
}

#[test]
fn fresh_document_holds_the_four_fields_only() {
    let text = save_credentials(None, &sample()).unwrap();
    assert_eq!(
        text,
        "{\"access_token\":\"acc-123\",\"is_premium\":\"true\",\"refresh_token\":\"ref-456\",\"user_id\":\"user-789\"}"
    );
}

#[test]
fn premium_flag_is_written_as_text() {
    let session = Credentials { is_premium: false, ..sample() };
    let text = save_credentials(None, &session).unwrap();
    let document: serde_json::Value = serde_json::from_str(&text).unwrap();
    assert_eq!(document["is_premium"].as_str(), Some("false"));
    assert_eq!(document["is_premium"].as_bool(), None);
}

#[test]
fn save_keeps_unrelated_keys() {
    let existing = "{\"theme\":\"dark\",\"count\":3,\"nested\":{\"a\":[1,2,null]},\"flag\":true}";
    let text = save_credentials(Some(existing), &sample()).unwrap();
    let before: serde_json::Value = serde_json::from_str(existing).unwrap();
    let after: serde_json::Value = serde_json::from_str(&text).unwrap();
    assert_eq!(after["theme"], before["theme"]);
    assert_eq!(after["count"], before["count"]);
    assert_eq!(after["nested"], before["nested"]);
    assert_eq!(after["flag"], before["flag"]);
    assert_eq!(after.as_object().unwrap().len(), 8);
    assert_eq!(read_tokens(Some(text.as_str())), Ok(sample()));
}

#[test]
fn save_overwrites_the_managed_fields() {
    let existing = "{\"access_token\":\"old\",\"refresh_token\":7,\"user_id\":null,\"is_premium\":\"false\",\"keep\":\"me\"}";
    let text = save_credentials(Some(existing), &sample()).unwrap();
    assert_eq!(
        text,
        "{\"access_token\":\"acc-123\",\"is_premium\":\"true\",\"keep\":\"me\",\"refresh_token\":\"ref-456\",\"user_id\":\"user-789\"}"
    );
}

#[test]
fn saving_twice_shows_the_second_session() {
    let first = save_credentials(None, &sample()).unwrap();
    let other = Credentials {
        access_token: String::from("a2"),
        refresh_token: String::from("r2"),
        user_id: String::from("u2"),
        is_premium: false,
    };
    let second = save_credentials(Some(first.as_str()), &other).unwrap();
    assert_eq!(second, save_credentials(None, &other).unwrap());
    assert_eq!(read_tokens(Some(second.as_str())), Ok(other));
}

#[test]
fn save_into_null_document_starts_afresh() {
    let text = save_credentials(Some("null"), &sample()).unwrap();
    assert_eq!(text, save_credentials(None, &sample()).unwrap());
}

#[test]
fn save_into_a_document_that_is_not_an_object_fails() {
    assert_eq!(save_credentials(Some("[1,2]"), &sample()), Err(invalid("JSON object")));
    assert_eq!(save_credentials(Some("\"text\""), &sample()), Err(invalid("JSON object")));
    assert_eq!(save_credentials(Some("42"), &sample()), Err(invalid("JSON object")));
    assert_eq!(save_credentials(Some("true"), &sample()), Err(invalid("JSON object")));
}

#[test]
fn save_into_text_that_is_not_json_fails() {
    let result = save_credentials(Some("{not json"), &sample());
    assert!(matches!(result, Err(CliError::JsonError(_))));
}

#[test]
fn tokens_with_quotes_and_unicode_survive() {
    let session = Credentials {
        access_token: String::from("a\"b\\c\n\u{1F600}"),
        refresh_token: String::from(""),
        user_id: String::from("\u{e9}t\u{e9}"),
        is_premium: true,
    };
    let text = save_credentials(None, &session).unwrap();
    assert_eq!(read_tokens(Some(text.as_str())), Ok(session));
}

#[test]
fn absent_document_is_reported_as_not_found() {
    assert_eq!(read_tokens(None), Err(CliError::ConfigFileNotFound));
}

#[test]
fn text_that_is_not_json_is_a_json_error() {
    assert!(matches!(read_tokens(Some("")), Err(CliError::JsonError(_))));
    assert!(matches!(read_tokens(Some("{\"access_token\":")), Err(CliError::JsonError(_))));
}

#[test]
fn json_error_carries_the_parsers_message() {
    match read_tokens(Some("{")) {
        Err(CliError::JsonError(message)) => {
            assert_eq!(message, "EOF while parsing an object at line 1 column 1")
        }
        other => panic!("unexpected result: {:?}", other),
    }
}

#[test]
fn well_formed_document_loads() {
    let text = "{\"access_token\":\"a\",\"refresh_token\":\"r\",\"user_id\":\"u\",\"is_premium\":\"false\",\"extra\":1}";
    assert_eq!(
        read_tokens(Some(text)),
        Ok(Credentials {
            access_token: String::from("a"),
            refresh_token: String::from("r"),
            user_id: String::from("u"),
            is_premium: false,
        })
    );
}

#[test]
fn missing_access_token_is_named() {
    let text = "{\"refresh_token\":\"r\",\"user_id\":\"u\",\"is_premium\":\"true\"}";
    assert_eq!(read_tokens(Some(text)), Err(invalid("access_token")));
}

#[test]
fn missing_refresh_token_is_named() {
    let text = "{\"access_token\":\"a\",\"user_id\":\"u\",\"is_premium\":\"true\"}";
    assert_eq!(read_tokens(Some(text)), Err(invalid("refresh_token")));
}

#[test]
fn missing_user_id_is_named() {
    let text = "{\"access_token\":\"a\",\"refresh_token\":\"r\",\"is_premium\":\"true\"}";
    assert_eq!(read_tokens(Some(text)), Err(invalid("user_id")));
}

#[test]
fn missing_is_premium_is_named() {
    let text = "{\"access_token\":\"a\",\"refresh_token\":\"r\",\"user_id\":\"u\"}";
    assert_eq!(read_tokens(Some(text)), Err(invalid("is_premium")));
}

#[test]
fn first_missing_field_is_named_when_several_are_missing() {
    assert_eq!(read_tokens(Some("{}")), Err(invalid("access_token")));
    assert_eq!(read_tokens(Some("{\"access_token\":\"a\"}")), Err(invalid("refresh_token")));
}

#[test]
fn field_of_the_wrong_type_is_named() {
    let text = "{\"access_token\":\"a\",\"refresh_token\":\"r\",\"user_id\":17,\"is_premium\":\"true\"}";
    assert_eq!(read_tokens(Some(text)), Err(invalid("user_id")));
    let text = "{\"access_token\":null,\"refresh_token\":\"r\",\"user_id\":\"u\",\"is_premium\":\"true\"}";
    assert_eq!(read_tokens(Some(text)), Err(invalid("access_token")));
}

#[test]
fn premium_flag_that_is_a_json_boolean_is_rejected() {
    let text = "{\"access_token\":\"a\",\"refresh_token\":\"r\",\"user_id\":\"u\",\"is_premium\":true}";
    assert_eq!(read_tokens(Some(text)), Err(invalid("is_premium")));
}

#[test]
fn premium_flag_that_spells_no_boolean_is_rejected() {
    let text = "{\"access_token\":\"a\",\"refresh_token\":\"r\",\"user_id\":\"u\",\"is_premium\":\"notabool\"}";
    assert_eq!(read_tokens(Some(text)), Err(invalid("is_premium (invalid boolean)")));
}

#[test]
fn premium_flag_is_case_sensitive() {
    let text = "{\"access_token\":\"a\",\"refresh_token\":\"r\",\"user_id\":\"u\",\"is_premium\":\"True\"}";
    assert_eq!(read_tokens(Some(text)), Err(invalid("is_premium (invalid boolean)")));
    let text = "{\"access_token\":\"a\",\"refresh_token\":\"r\",\"user_id\":\"u\",\"is_premium\":\"\"}";
    assert_eq!(read_tokens(Some(text)), Err(invalid("is_premium (invalid boolean)")));
}

#[test]
fn document_that_is_not_an_object_lacks_every_field() {
    assert_eq!(read_tokens(Some("[]")), Err(invalid("access_token")));
    assert_eq!(read_tokens(Some("null")), Err(invalid("access_token")));
    assert_eq!(read_tokens(Some("\"access_token\"")), Err(invalid("access_token")));
}

#[test]
fn invalid_field_message_asks_to_log_in_again() {
    let text = "{\"access_token\":\"a\",\"refresh_token\":\"r\",\"is_premium\":\"true\"}";
    let error = read_tokens(Some(text)).unwrap_err();
    assert_eq!(
        error.message(),
        "Config file is invalid: user_id not found. Please run 'anylist login' again."
    );
}

#[test]
fn store_then_load_on_a_parsed_document() {
    let mut document: serde_json::Value = serde_json::from_str("{\"other\":[1]}").unwrap();
    store_credentials(&mut document, &sample());
    assert_eq!(load_credentials(&document), Ok(sample()));
    assert_eq!(document["other"], serde_json::from_str::<serde_json::Value>("[1]").unwrap());
    assert_eq!(document["access_token"].as_str(), Some("acc-123"));
    assert_eq!(document["is_premium"].as_str(), Some("true"));
}

#[test]
fn store_into_null_makes_an_object() {
    let mut document = serde_json::Value::Null;
    store_credentials(&mut document, &sample());
    assert!(document.is_object());
    assert_eq!(document.as_object().unwrap().len(), 4);
    assert_eq!(load_credentials(&document), Ok(sample()));
}

#[test]
fn load_from_a_parsed_document_names_the_missing_field() {
    let document: serde_json::Value =
        serde_json::from_str("{\"access_token\":\"a\",\"refresh_token\":[]}").unwrap();
    assert_eq!(load_credentials(&document), Err(invalid("refresh_token")));
}

#[test]
fn merge_writes_into_an_object_and_into_null() {
    let mut document: serde_json::Value = serde_json::from_str("{\"other\":true}").unwrap();
    assert_eq!(merge_credentials(&mut document, &sample()), Ok(()));
    assert_eq!(load_credentials(&document), Ok(sample()));
    assert_eq!(document["other"].as_bool(), Some(true));
    let mut document = serde_json::Value::Null;
    assert_eq!(merge_credentials(&mut document, &sample()), Ok(()));
    assert_eq!(load_credentials(&document), Ok(sample()));
}

#[test]
fn merge_leaves_a_value_that_holds_no_members_as_it_is() {
    for text in ["[1,2]", "\"text\"", "42", "false"] {
        let before: serde_json::Value = serde_json::from_str(text).unwrap();
        let mut document = before.clone();
        assert_eq!(merge_credentials(&mut document, &sample()), Err(invalid("JSON object")));
        assert_eq!(document, before);
    }
}

#[test]
fn only_true_and_false_spell_a_boolean() {
    assert_eq!(parse_bool("true"), Some(true));
    assert_eq!(parse_bool("false"), Some(false));
    for text in ["", "True", "FALSE", "1", "0", "yes", " true", "true ", "notabool", "tru"] {
        assert_eq!(parse_bool(text), None);
        assert_eq!(parse_bool(text), text.parse::<bool>().ok());
    }
}
