//! The script fetcher's logic: building the per-monitor script query and
//! unwrapping the nested response envelope down to the script body. The
//! response is unwrapped by descent — while the value is a non-empty
//! object, descend into its first member — rather than by a hard-coded
//! field path, so that the envelope's nesting may change without breaking
//! the fetcher; the terminal value must be a string.
use crate::errors::FetchError;
use crate::json::{
    descend,
    jv_model,
    lemma_member_models_index,
    member_models,
    parse_json,
    parsed_json,
    JsonModel,
    JsonValue,
};
use crate::strutil::{dec_str, u32_to_string};
use vstd::prelude::*;

verus! {

/// The script query for one monitor: the account scope and the monitor
/// guid interpolated into the fixed single-field document.
pub open spec fn script_query_of(account_id: u32, guid: Seq<char>) -> Seq<char> {
    "{ actor { account(id: "@ + dec_str(account_id as nat)
        + ") { synthetics { script(monitorGuid: \""@ + guid + "\") { text } } } } }"@
}

/// Builds the script query for one monitor, scoped to its account and
/// guid.
pub fn build_script_query(account_id: u32, guid: &str) -> (q: String)
    ensures
        q@ == script_query_of(account_id, guid@),
{
    let mut q = String::from_str("{ actor { account(id: ");
    let num = u32_to_string(account_id);
    q.append(num.as_str());
    q.append(") { synthetics { script(monitorGuid: \"");
    q.append(guid);
    q.append("\") { text } } } } }");
    proof {
        assert(q@ =~= script_query_of(account_id, guid@));
    }
    q
}

/// Unwraps a script response to its terminal value: succeeds with the
/// script body exactly when the descent ends at a string, and reports an
/// invalid shape on any other terminal value.
pub fn unwrap_script(v: &JsonValue) -> (r: Result<String, FetchError>)
    ensures
        match descend(jv_model(*v)) {
            JsonModel::Str(s0) => r matches Ok(s) && s@ == s0,
            _ => r matches Err(e) && e == FetchError::InvalidShape,
        },
{
    let mut cur: &JsonValue = v;
    loop
        invariant_except_break
            descend(jv_model(*cur)) == descend(jv_model(*v)),
        ensures
            jv_model(*cur) == descend(jv_model(*v)),
        decreases jv_model(*cur),
    {
        match cur {
            JsonValue::Object(members) => {
                proof {
                    lemma_member_models_index(members@);
                }
                if members.len() == 0 {
                    proof {
                        assert(jv_model(*cur) == JsonModel::Object(member_models(members@)));
                        assert(member_models(members@).len() == 0);
                    }
                    break ;
                }
                proof {
                    assert(jv_model(*cur) == JsonModel::Object(member_models(members@)));
                    assert(member_models(members@)[0].1 == jv_model(members@[0].1));
                }
                cur = &members[0].1;
            },
            _ => {
                break ;
            },
        }
    }
    match cur {
        JsonValue::Str(s) => Ok(s.clone()),
        _ => Err(FetchError::InvalidShape),
    }
}

/// Decodes a script query's response body: parses the text as JSON and
/// unwraps it by descent to the script body string.
pub fn script_from_response(body: &str) -> (r: Result<String, FetchError>)
    ensures
        match parsed_json(body@) {
            None => r matches Err(e) && e == FetchError::BadJson,
            Some(m) => match descend(m) {
                JsonModel::Str(s0) => r matches Ok(s) && s@ == s0,
                _ => r matches Err(e) && e == FetchError::InvalidShape,
            },
        },
{
    match parse_json(body) {
        None => Err(FetchError::BadJson),
        Some(v) => unwrap_script(&v),
    }
}

/// The file path a fetched script is stored at, derived from the task's
/// sanitized monitor name.
pub fn script_path(name: &str) -> (p: String)
    ensures
        p@ == "output/scripts/"@ + name@ + ".js"@,
{
    let mut p = String::from_str("output/scripts/");
    p.append(name);
    p.append(".js");
    p
}

} // verus!
