//! Tests of the pipeline: decoding the primary response, rendering the
//! manifest, planning the fan-out, unwrapping script responses, and
//! aggregating task outcomes.
use synth_export::errors::{FetchError, QueryError};
use synth_export::export::{build_tasks, collect_outcomes, plan_export, MANIFEST_PATH};
use synth_export::json::{get_member, JsonValue};
use synth_export::manifest::render_manifest;
use synth_export::monitor::{Entity, Tag};
use synth_export::response::parse_primary;
use synth_export::script::{build_script_query, script_from_response, script_path, unwrap_script};

fn entity(name: &str, monitor_type: &str, guid: &str) -> Entity {
    Entity {
        account_id: 42,
        monitor_type: String::from(monitor_type),
        monitored_url: None,
        name: String::from(name),
        period: 10,
        tags: vec![Tag {
            key: String::from("account"),
            values: vec![String::from("prod")],
        }],
        guid: String::from(guid),
    }
}

const TWO_ENTITY_BODY: &str = r#"{"data":{"actor":{"entitySearch":{"results":{"entities":[
  {"accountId":42,"monitorType":"BROWSER","monitoredUrl":"https://example.com","name":"check-a",
   "period":5,"tags":[{"key":"account","values":["prod"]}],"guid":"g-1"},
  {"accountId":42,"monitorType":"SCRIPT_API","monitoredUrl":null,"name":"api/check",
   "period":15,"tags":[{"key":"monitorStatus","values":["ENABLED"]}],"guid":"g-2"}
]}}}}}"#;

#[test]
fn parse_primary_decodes_two_entities() {
    let resp = parse_primary(TWO_ENTITY_BODY).unwrap();
    let entities = &resp.data.actor.entity_search.results.entities;
    assert_eq!(entities.len(), 2);
    assert_eq!(entities[0].name, "check-a");
    assert_eq!(entities[0].monitored_url, Some(String::from("https://example.com")));
    assert_eq!(entities[1].monitored_url, None);
    assert_eq!(entities[1].monitor_type, "SCRIPT_API");
    assert_eq!(entities[1].tags.len(), 1);
    assert_eq!(entities[1].tags[0].key, "monitorStatus");
    assert_eq!(entities[1].tags[0].values, vec![String::from("ENABLED")]);
}

#[test]
fn parse_primary_rejects_invalid_json() {
    assert_eq!(parse_primary("not json").unwrap_err(), QueryError::BadJson);
}

#[test]
fn parse_primary_rejects_wrong_shape() {
    assert_eq!(parse_primary("{}").unwrap_err(), QueryError::BadShape);
    assert_eq!(parse_primary(r#"{"data":{"actor":{}}}"#).unwrap_err(), QueryError::BadShape);
    let no_guid = r#"{"data":{"actor":{"entitySearch":{"results":{"entities":[
      {"accountId":1,"monitorType":"BROWSER","name":"n","period":5,"tags":[]}
    ]}}}}}"#;
    assert_eq!(parse_primary(no_guid).unwrap_err(), QueryError::BadShape);
}

#[test]
fn parse_primary_rejects_oversized_account_id() {
    let body = r#"{"data":{"actor":{"entitySearch":{"results":{"entities":[
      {"accountId":5000000000,"monitorType":"BROWSER","name":"n","period":5,"tags":[],"guid":"g"}
    ]}}}}}"#;
    assert_eq!(parse_primary(body).unwrap_err(), QueryError::BadShape);
}

#[test]
fn manifest_has_header_and_one_row_per_entity() {
    let entities = vec![
        entity("check-a", "BROWSER", "g-1"),
        entity("check-b", "SCRIPT_API", "g-2"),
        entity("check-c", "SCRIPT_BROWSER", "g-3"),
    ];
    let bytes = render_manifest(&entities);
    let text = String::from_utf8(bytes).unwrap();
    let lines: Vec<&str> = text.lines().collect();
    assert_eq!(lines.len(), 4);
    assert_eq!(
        lines[0],
        "account,account_id,name,monitor_type,monitored_url,period,monitor_status,guid"
    );
    assert_eq!(lines[1], "prod,42,check-a,BROWSER,,10,,g-1");
    assert_eq!(lines[2], "prod,42,check-b,SCRIPT_API,,10,,g-2");
    assert_eq!(lines[3], "prod,42,check-c,SCRIPT_BROWSER,,10,,g-3");
}

#[test]
fn build_tasks_keeps_qualifying_entities_in_order() {
    let entities = vec![
        entity("check-a", "BROWSER", "g-1"),
        entity("api/check", "SCRIPT_API", "g-2"),
        entity("check-c", "SCRIPT_BROWSER", "g-3"),
    ];
    let tasks = build_tasks(&entities);
    assert_eq!(tasks.len(), 2);
    assert_eq!(tasks[0].guid, "g-2");
    assert_eq!(tasks[0].account_id, 42);
    assert_eq!(tasks[0].name, "api_check");
    assert_eq!(tasks[1].guid, "g-3");
}

#[test]
fn end_to_end_plan_two_entities() {
    let plan = plan_export(TWO_ENTITY_BODY).unwrap();
    let text = String::from_utf8(plan.manifest).unwrap();
    let lines: Vec<&str> = text.lines().collect();
    assert_eq!(lines.len(), 3);
    assert_eq!(
        lines[0],
        "account,account_id,name,monitor_type,monitored_url,period,monitor_status,guid"
    );
    assert_eq!(lines[1], "prod,42,check-a,BROWSER,https://example.com,5,,g-1");
    assert_eq!(lines[2], ",42,api/check,SCRIPT_API,,15,ENABLED,g-2");
    assert_eq!(plan.tasks.len(), 1);
    assert_eq!(plan.tasks[0].account_id, 42);
    assert_eq!(plan.tasks[0].guid, "g-2");
    assert_eq!(plan.tasks[0].name, "api_check");
}

#[test]
fn plan_export_propagates_decode_errors() {
    assert_eq!(plan_export("[").unwrap_err(), QueryError::BadJson);
    assert_eq!(plan_export(r#"{"data":null}"#).unwrap_err(), QueryError::BadShape);
}

#[test]
fn script_query_interpolates_account_and_guid() {
    let q = build_script_query(42, "g-2");
    assert_eq!(
        q,
        "{ actor { account(id: 42) { synthetics { script(monitorGuid: \"g-2\") { text } } } } }"
    );
}

#[test]
fn script_unwrap_reaches_nested_text() {
    let body = r#"{"actor":{"account":{"synthetics":{"script":{"text":"console.log(1)"}}}}}"#;
    assert_eq!(script_from_response(body).unwrap(), "console.log(1)");
}

#[test]
fn script_unwrap_rejects_null_terminal() {
    let body = r#"{"actor":{"account":{"synthetics":{"script":{"text":null}}}}}"#;
    assert_eq!(script_from_response(body).unwrap_err(), FetchError::InvalidShape);
}

#[test]
fn script_unwrap_rejects_empty_object_terminal() {
    let body = r#"{"actor":{"account":{"synthetics":{"script":{}}}}}"#;
    assert_eq!(script_from_response(body).unwrap_err(), FetchError::InvalidShape);
}

#[test]
fn script_unwrap_rejects_invalid_json() {
    assert_eq!(script_from_response("nope").unwrap_err(), FetchError::BadJson);
}

#[test]
fn unwrap_script_on_plain_values() {
    assert_eq!(unwrap_script(&JsonValue::Str(String::from("body"))).unwrap(), "body");
    assert_eq!(
        unwrap_script(&JsonValue::Number(Some(3))).unwrap_err(),
        FetchError::InvalidShape
    );
    assert_eq!(unwrap_script(&JsonValue::Object(vec![])).unwrap_err(), FetchError::InvalidShape);
}

#[test]
fn get_member_finds_first_match() {
    let obj = JsonValue::Object(vec![
        (String::from("a"), JsonValue::Number(Some(1))),
        (String::from("b"), JsonValue::Null),
        (String::from("a"), JsonValue::Number(Some(2))),
    ]);
    match get_member(&obj, "a") {
        Some(JsonValue::Number(Some(n))) => assert_eq!(*n, 1),
        _ => panic!("expected the first member under the key"),
    }
    assert!(get_member(&obj, "c").is_none());
    assert!(get_member(&JsonValue::Null, "a").is_none());
}

#[test]
fn outcomes_aggregate_to_first_failure() {
    let all_ok: Vec<Result<(), FetchError>> = vec![Ok(()), Ok(()), Ok(())];
    assert!(collect_outcomes(&all_ok).is_ok());
    let one_bad: Vec<Result<(), FetchError>> = vec![Ok(()), Err(FetchError::Transport), Ok(())];
    assert_eq!(collect_outcomes(&one_bad).unwrap_err(), FetchError::Transport);
    let two_bad: Vec<Result<(), FetchError>> =
        vec![Ok(()), Err(FetchError::InvalidShape), Err(FetchError::Transport)];
    assert_eq!(collect_outcomes(&two_bad).unwrap_err(), FetchError::InvalidShape);
    let empty: Vec<Result<(), FetchError>> = vec![];
    assert!(collect_outcomes(&empty).is_ok());
}

#[test]
fn paths_and_messages() {
    assert_eq!(MANIFEST_PATH, "output/monitor.csv");
    assert_eq!(script_path("api_check"), "output/scripts/api_check.js");
    assert_eq!(QueryError::BadJson.message(), "response body is not valid JSON");
    assert_eq!(QueryError::BadShape.message(), "response shape does not match the query");
    assert_eq!(FetchError::Transport.message(), "script query transport failed");
    assert_eq!(FetchError::BadJson.message(), "script response body is not valid JSON");
    assert_eq!(FetchError::InvalidShape.message(), "invalid script query response");
    assert_eq!(FetchError::FileWrite.message(), "script file write failed");
}
