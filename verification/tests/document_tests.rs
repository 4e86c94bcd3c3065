use chrome_valet::chrome_interface::ChromeInterface;
use chrome_valet::document::JsonDocument;
use chrome_valet::error::FileOutcome;
use chrome_valet::error::ValetError;
use chrome_valet::json::JsonValue;
use chrome_valet::paths::lastused_statefile_path;

fn contents(text: &str) -> FileOutcome {
    FileOutcome::Contents(text.as_bytes().to_vec())
}

fn document(text: &str) -> JsonDocument {
    JsonDocument::parse(text.as_bytes()).expect("a document")
}

#[test]
fn document_is_written_as_it_was_read() {
    let text = "{\"b\":1,\"a\":[1.5,-2,true,null,\"x\"],\"c\":{\"z\":{},\"y\":1e+300}}";
    assert_eq!(document(text).to_text(), text);
    assert_eq!(document(" [ 1 , 2 ] ").to_text(), "[1,2]");
    assert_eq!(document("18446744073709551615").to_text(), "18446744073709551615");
}

#[test]
fn document_that_is_none_is_a_format_error() {
    assert_eq!(JsonDocument::parse(b"{").err(), Some(ValetError::FormatError));
    assert_eq!(JsonDocument::parse(b"").err(), Some(ValetError::FormatError));
}

#[test]
fn document_is_seen_as_a_tree() {
    let tree = document("{\"profile\": {\"last_used\": \"Default\"}}").tree();
    assert_eq!(
        tree.get("profile").and_then(|p| p.get("last_used")).and_then(|v| v.as_str()),
        Some("Default")
    );
    assert!(matches!(document("null").tree(), JsonValue::Null));
}

#[test]
fn nested_member_is_replaced_in_place() {
    let mut doc = document("{\"a\":1,\"profile\":{\"x\":1,\"last_used\":\"Old\",\"y\":2},\"z\":3}");
    assert_eq!(doc.set_nested_text("profile", "last_used", "New"), Ok(()));
    assert_eq!(
        doc.to_text(),
        "{\"a\":1,\"profile\":{\"x\":1,\"last_used\":\"New\",\"y\":2},\"z\":3}"
    );
}

#[test]
fn nested_member_is_added_at_the_end() {
    let mut doc = document("{\"a\":1,\"profile\":{\"x\":1}}");
    assert_eq!(doc.set_nested_text("profile", "last_used", "New"), Ok(()));
    assert_eq!(doc.to_text(), "{\"a\":1,\"profile\":{\"x\":1,\"last_used\":\"New\"}}");
    let mut bare = document("{\"a\":1}");
    assert_eq!(bare.set_nested_text("profile", "last_used", "New"), Ok(()));
    assert_eq!(bare.to_text(), "{\"a\":1,\"profile\":{\"last_used\":\"New\"}}");
}

#[test]
fn null_counts_as_an_object_without_members() {
    let mut doc = document("null");
    assert_eq!(doc.set_nested_flag("browser", "enabled", true), Ok(()));
    assert_eq!(doc.to_text(), "{\"browser\":{\"enabled\":true}}");
    let mut inner = document("{\"browser\":null,\"x\":0}");
    assert_eq!(inner.set_nested_flag("browser", "enabled", false), Ok(()));
    assert_eq!(inner.to_text(), "{\"browser\":{\"enabled\":false},\"x\":0}");
}

#[test]
fn member_of_another_kind_is_a_format_error() {
    for text in ["[]", "3", "\"profile\"", "true", "{\"profile\":[]}", "{\"profile\":\"x\"}",
        "{\"profile\":7}", "{\"profile\":false}"] {
        let mut doc = document(text);
        let before = doc.to_text();
        assert_eq!(
            doc.set_nested_text("profile", "last_used", "New"),
            Err(ValetError::FormatError),
            "{}",
            text
        );
        assert_eq!(doc.to_text(), before);
    }
}

#[test]
fn inner_member_of_any_kind_is_replaced() {
    let mut doc = document("{\"profile\":{\"last_used\":[1,2,3]}}");
    assert_eq!(doc.set_nested_text("profile", "last_used", "P"), Ok(()));
    assert_eq!(doc.to_text(), "{\"profile\":{\"last_used\":\"P\"}}");
}

#[test]
fn text_is_escaped_when_written() {
    let mut doc = document("{}");
    assert_eq!(doc.set_nested_text("profile", "last_used", "a\"b\\c"), Ok(()));
    assert_eq!(doc.to_text(), "{\"profile\":{\"last_used\":\"a\\\"b\\\\c\"}}");
}

#[test]
fn last_used_profile_is_written_into_the_local_state() {
    let interface = ChromeInterface::new();
    let text = interface
        .set_lastused_profile(
            &contents(
                "{\"profile\": {\"info_cache\": {\"Default\": {\"zoom\": 1.25}}, \
                 \"last_used\": \"Default\"}, \"uninstall_metrics\": {\"n\": 18446744073709551615}}",
            ),
            "Profile 1",
        )
        .expect("text");
    assert_eq!(
        text,
        "{\"profile\":{\"info_cache\":{\"Default\":{\"zoom\":1.25}},\"last_used\":\"Profile 1\"},\
         \"uninstall_metrics\":{\"n\":18446744073709551615}}"
    );
}

#[test]
fn last_used_profile_needs_a_local_state() {
    let interface = ChromeInterface::new();
    assert_eq!(
        interface.set_lastused_profile(&FileOutcome::Missing, "P").err(),
        Some(ValetError::NotFound)
    );
    assert_eq!(
        interface.set_lastused_profile(&FileOutcome::Unreadable, "P").err(),
        Some(ValetError::IoError)
    );
    assert_eq!(
        interface.set_lastused_profile(&contents("{\"profile\""), "P").err(),
        Some(ValetError::FormatError)
    );
    assert_eq!(
        interface.set_lastused_profile(&contents("{\"profile\": 1}"), "P").err(),
        Some(ValetError::FormatError)
    );
    assert_eq!(
        interface.set_lastused_profile(&contents("[1]"), "P").err(),
        Some(ValetError::FormatError)
    );
}

#[test]
fn last_used_profile_goes_to_the_local_state_of_chrome() {
    assert_eq!(lastused_statefile_path().parts, vec!["Google/Chrome/User Data/Local State"]);
}

#[test]
fn default_browser_check_is_switched_in_the_profile_preferences() {
    let on = ChromeInterface::set_chrome_default_browser_check(
        &contents("{\"browser\": {\"default_browser_setting_enabled\": false, \"x\": 1}}"),
        true,
    );
    assert_eq!(
        on.expect("text"),
        "{\"browser\":{\"default_browser_setting_enabled\":true,\"x\":1}}"
    );
    let off = ChromeInterface::set_chrome_default_browser_check(&contents("{\"a\": 1}"), false);
    assert_eq!(
        off.expect("text"),
        "{\"a\":1,\"browser\":{\"default_browser_setting_enabled\":false}}"
    );
}

#[test]
fn default_browser_check_needs_the_profile_preferences() {
    assert_eq!(
        ChromeInterface::set_chrome_default_browser_check(&FileOutcome::Missing, true).err(),
        Some(ValetError::NotFound)
    );
    assert_eq!(
        ChromeInterface::set_chrome_default_browser_check(&FileOutcome::Unreadable, true).err(),
        Some(ValetError::IoError)
    );
    assert_eq!(
        ChromeInterface::set_chrome_default_browser_check(&contents("nope"), true).err(),
        Some(ValetError::FormatError)
    );
    assert_eq!(
        ChromeInterface::set_chrome_default_browser_check(&contents("{\"browser\": \"x\"}"), true)
            .err(),
        Some(ValetError::FormatError)
    );
}
