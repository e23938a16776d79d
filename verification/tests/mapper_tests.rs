//! Tests of the record mapper, the tag extraction rules, and the small
//! string helpers.
use synth_export::monitor::{Entity, Monitor, Tag};
use synth_export::strutil::{sanitize_name, str_eq, str_has_prefix, u32_to_string};

fn entity_with_tags(tags: Vec<Tag>) -> Entity {
    Entity {
        account_id: 11,
        monitor_type: String::from("BROWSER"),
        monitored_url: Some(String::from("https://example.com")),
        name: String::from("check-a"),
        period: 5,
        tags,
        guid: String::from("g-11"),
    }
}

fn tag(key: &str, values: &[&str]) -> Tag {
    Tag { key: String::from(key), values: values.iter().map(|v| String::from(*v)).collect() }
}

#[test]
fn map_is_pure() {
    let e = entity_with_tags(vec![tag("account", &["prod"]), tag("monitorStatus", &["ENABLED"])]);
    let m1 = Monitor::from(e.clone());
    let m2 = Monitor::from(e);
    assert_eq!(m1.account, m2.account);
    assert_eq!(m1.account_id, m2.account_id);
    assert_eq!(m1.name, m2.name);
    assert_eq!(m1.monitor_type, m2.monitor_type);
    assert_eq!(m1.monitored_url, m2.monitored_url);
    assert_eq!(m1.period, m2.period);
    assert_eq!(m1.monitor_status, m2.monitor_status);
    assert_eq!(m1.guid, m2.guid);
}

#[test]
fn absent_account_tag_yields_absent_field() {
    let e = entity_with_tags(vec![tag("team", &["core"]), tag("monitorStatus", &["ENABLED"])]);
    let m = Monitor::from(e);
    assert_eq!(m.account, None);
    assert_eq!(m.monitor_status, Some(String::from("ENABLED")));
}

#[test]
fn single_account_tag_takes_first_value() {
    let e = entity_with_tags(vec![tag("account", &["v1", "v2"])]);
    let m = Monitor::from(e);
    assert_eq!(m.account, Some(String::from("v1")));
}

#[test]
fn first_monitor_status_occurrence_wins() {
    let e = entity_with_tags(vec![
        tag("monitorStatus", &["ENABLED", "spare"]),
        tag("monitorStatus", &["DISABLED"]),
    ]);
    let m = Monitor::from(e);
    assert_eq!(m.monitor_status, Some(String::from("ENABLED")));
}

#[test]
fn empty_tag_list_yields_absent_fields() {
    let m = Monitor::from(entity_with_tags(vec![]));
    assert_eq!(m.account, None);
    assert_eq!(m.monitor_status, None);
}

#[test]
fn tag_with_no_values_resolves_to_absent() {
    let e = entity_with_tags(vec![tag("account", &[]), tag("account", &["late"])]);
    let m = Monitor::from(e);
    assert_eq!(m.account, None);
}

#[test]
fn scalar_fields_carry_over() {
    let e = entity_with_tags(vec![]);
    let m = Monitor::from(e);
    assert_eq!(m.account_id, 11);
    assert_eq!(m.name, "check-a");
    assert_eq!(m.monitor_type, "BROWSER");
    assert_eq!(m.monitored_url, Some(String::from("https://example.com")));
    assert_eq!(m.period, 5);
    assert_eq!(m.guid, "g-11");
}

#[test]
fn sanitize_replaces_separators() {
    assert_eq!(sanitize_name("a/b/c"), "a_b_c");
    assert_eq!(sanitize_name("/leading"), "_leading");
    assert_eq!(sanitize_name("trailing/"), "trailing_");
}

#[test]
fn sanitize_keeps_other_characters() {
    assert_eq!(sanitize_name("plain name.js"), "plain name.js");
    assert_eq!(sanitize_name(""), "");
    assert!(!sanitize_name("a/b").contains('/'));
}

#[test]
fn decimal_formatting() {
    assert_eq!(u32_to_string(0), "0");
    assert_eq!(u32_to_string(7), "7");
    assert_eq!(u32_to_string(4030), "4030");
    assert_eq!(u32_to_string(u32::MAX), "4294967295");
}

#[test]
fn string_helpers() {
    assert!(str_eq("abc", "abc"));
    assert!(!str_eq("abc", "abd"));
    assert!(!str_eq("abc", "ab"));
    assert!(str_has_prefix("SCRIPT_API", "SCRIPT"));
    assert!(str_has_prefix("SCRIPT", "SCRIPT"));
    assert!(!str_has_prefix("BROWSER", "SCRIPT"));
    assert!(!str_has_prefix("SCRIP", "SCRIPT"));
}
