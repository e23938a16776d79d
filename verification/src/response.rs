//! Shape validation of the primary query's response: drilling through the
//! response envelope (`data.actor.entitySearch.results.entities`) and
//! reading each entity's fields out of the JSON model. Any missing or
//! ill-typed field fails the whole decode, as the run treats the primary
//! response as all-or-nothing.
use crate::errors::QueryError;
use crate::json::{
    get_member,
    jm_get,
    jv_model,
    jv_models,
    lemma_jv_models_index,
    parse_json,
    parsed_json,
    JsonModel,
    JsonValue,
};
use crate::monitor::{Entity, EntityModel, Tag, TagModel};
use vstd::prelude::*;

verus! {

/// The whole decoded response envelope of the primary query.
#[derive(Debug)]
pub struct Response {
    pub data: Data,
}

/// The `data` member of the response envelope.
#[derive(Debug)]
pub struct Data {
    pub actor: Actor,
}

/// The `actor` member of the envelope.
#[derive(Debug)]
pub struct Actor {
    pub entity_search: Results,
}

/// The `entitySearch` member of the envelope.
#[derive(Debug)]
pub struct Results {
    pub results: Entities,
}

/// The `results` member of the envelope: the list of found entities.
#[derive(Debug)]
pub struct Entities {
    pub entities: Vec<Entity>,
}

/// The character content of a JSON string value; empty on any other shape.
pub open spec fn string_item(m: JsonModel) -> Seq<char> {
    match m {
        JsonModel::Str(s) => s,
        _ => Seq::empty(),
    }
}

/// Every value of the sequence is a JSON string.
pub open spec fn all_strings(items: Seq<JsonModel>) -> bool {
    forall|i: int| 0 <= i < items.len() ==> items[i] is Str
}

/// The character contents of a sequence of JSON strings, in order.
pub open spec fn string_values(items: Seq<JsonModel>) -> Seq<Seq<char>> {
    Seq::new(items.len(), |i: int| string_item(items[i]))
}

/// The tag a JSON value decodes to: an object whose `key` member is a
/// string and whose `values` member is an array of strings; absent on any
/// other shape.
pub open spec fn tag_of(m: JsonModel) -> Option<TagModel> {
    match (jm_get(m, "key"@), jm_get(m, "values"@)) {
        (Some(JsonModel::Str(k)), Some(JsonModel::Array(items))) => if all_strings(items) {
            Some(TagModel { key: k, values: string_values(items) })
        } else {
            None
        },
        _ => None,
    }
}

/// Every value of the sequence decodes to a tag.
pub open spec fn all_tags(items: Seq<JsonModel>) -> bool {
    forall|i: int| 0 <= i < items.len() ==> tag_of(items[i]) is Some
}

/// The decoded tags of a sequence of JSON values, in order.
pub open spec fn tag_models(items: Seq<JsonModel>) -> Seq<TagModel> {
    Seq::new(items.len(), |i: int| tag_of(items[i])->0)
}

/// The optional URL a JSON value decodes to: absent member or JSON null is
/// no URL, a string is a URL, and any other shape fails the decode (the
/// outer `None`).
pub open spec fn url_of(m: Option<JsonModel>) -> Option<Option<Seq<char>>> {
    match m {
        None => Some(None),
        Some(JsonModel::Null) => Some(None),
        Some(JsonModel::Str(s)) => Some(Some(s)),
        Some(_) => None,
    }
}

/// The entity a JSON value decodes to: an object carrying the projected
/// outline fields, each of the expected type, with integers within `u32`
/// range; absent on any other shape.
pub open spec fn entity_of(m: JsonModel) -> Option<EntityModel> {
    match (
        jm_get(m, "accountId"@),
        jm_get(m, "monitorType"@),
        jm_get(m, "name"@),
        jm_get(m, "period"@),
        jm_get(m, "guid"@),
        jm_get(m, "tags"@),
    ) {
        (
            Some(JsonModel::Number(Some(aid))),
            Some(JsonModel::Str(mt)),
            Some(JsonModel::Str(nm)),
            Some(JsonModel::Number(Some(pd))),
            Some(JsonModel::Str(gd)),
            Some(JsonModel::Array(titems)),
        ) => {
            if aid <= u32::MAX as u64 && pd <= u32::MAX as u64 && all_tags(titems) {
                match url_of(jm_get(m, "monitoredUrl"@)) {
                    Some(u) => Some(
                        EntityModel {
                            account_id: aid as u32,
                            monitor_type: mt,
                            monitored_url: u,
                            name: nm,
                            period: pd as u32,
                            tags: tag_models(titems),
                            guid: gd,
                        },
                    ),
                    None => None,
                }
            } else {
                None
            }
        },
        _ => None,
    }
}

/// Every value of the sequence decodes to an entity.
pub open spec fn all_entities(items: Seq<JsonModel>) -> bool {
    forall|i: int| 0 <= i < items.len() ==> entity_of(items[i]) is Some
}

/// The decoded entities of a sequence of JSON values, in order.
pub open spec fn entity_models(items: Seq<JsonModel>) -> Seq<EntityModel> {
    Seq::new(items.len(), |i: int| entity_of(items[i])->0)
}

/// The entity list a whole response decodes to: the envelope members
/// `data.actor.entitySearch.results.entities` drilled in turn, the last an
/// array whose values all decode to entities; absent on any other shape.
pub open spec fn response_entities(m: JsonModel) -> Option<Seq<EntityModel>> {
    match jm_get(m, "data"@) {
        Some(d) => match jm_get(d, "actor"@) {
            Some(a) => match jm_get(a, "entitySearch"@) {
                Some(es) => match jm_get(es, "results"@) {
                    Some(rs) => match jm_get(rs, "entities"@) {
                        Some(JsonModel::Array(items)) => if all_entities(items) {
                            Some(entity_models(items))
                        } else {
                            None
                        },
                        _ => None,
                    },
                    _ => None,
                },
                _ => None,
            },
            _ => None,
        },
        _ => None,
    }
}

fn json_to_strings(items: &Vec<JsonValue>) -> (r: Option<Vec<String>>)
    ensures
        match r {
            Some(vs) => all_strings(jv_models(items@)) && vs.deep_view() == string_values(
                jv_models(items@),
            ),
            None => !all_strings(jv_models(items@)),
        },
{
    let ghost ms = jv_models(items@);
    proof {
        lemma_jv_models_index(items@);
    }
    let n: usize = items.len();
    let mut out: Vec<String> = Vec::new();
    let mut i: usize = 0;
    while i < n
        invariant
            n == items@.len(),
            ms == jv_models(items@),
            ms.len() == n,
            forall|k: int| 0 <= k < n ==> ms[k] == jv_model(items@[k]),
            0 <= i <= n,
            out@.len() == i,
            forall|k: int| 0 <= k < i ==> ms[k] is Str && out@[k]@ == string_item(ms[k]),
        decreases n - i,
    {
        match &items[i] {
            JsonValue::Str(s) => {
                let c = s.clone();
                out.push(c);
            },
            _ => {
                proof {
                    assert(!(ms[i as int] is Str));
                }
                return None;
            },
        }
        i = i + 1;
    }
    proof {
        assert(out.deep_view() =~= string_values(ms));
    }
    Some(out)
}

fn json_to_tag(v: &JsonValue) -> (r: Option<Tag>)
    ensures
        match r {
            Some(t) => tag_of(jv_model(*v)) == Some(t@),
            None => tag_of(jv_model(*v)) is None,
        },
{
    let key: String = match get_member(v, "key") {
        Some(x) => match x {
            JsonValue::Str(s) => s.clone(),
            _ => {
                return None;
            },
        },
        None => {
            return None;
        },
    };
    let values: Vec<String> = match get_member(v, "values") {
        Some(x) => match x {
            JsonValue::Array(items) => match json_to_strings(items) {
                Some(vs) => vs,
                None => {
                    return None;
                },
            },
            _ => {
                return None;
            },
        },
        None => {
            return None;
        },
    };
    let t = Tag { key, values };
    proof {
        assert(tag_of(jv_model(*v)) matches Some(tm) && tm =~= t@);
    }
    Some(t)
}

fn json_to_tags(items: &Vec<JsonValue>) -> (r: Option<Vec<Tag>>)
    ensures
        match r {
            Some(ts) => all_tags(jv_models(items@)) && ts.deep_view() == tag_models(
                jv_models(items@),
            ),
            None => !all_tags(jv_models(items@)),
        },
{
    let ghost ms = jv_models(items@);
    proof {
        lemma_jv_models_index(items@);
    }
    let n: usize = items.len();
    let mut out: Vec<Tag> = Vec::new();
    let mut i: usize = 0;
    while i < n
        invariant
            n == items@.len(),
            ms == jv_models(items@),
            ms.len() == n,
            forall|k: int| 0 <= k < n ==> ms[k] == jv_model(items@[k]),
            0 <= i <= n,
            out@.len() == i,
            forall|k: int| 0 <= k < i ==> (#[trigger] tag_of(ms[k])) is Some,
            forall|k: int| 0 <= k < i ==> #[trigger] out@[k].deep_view() == tag_of(ms[k])->0,
        decreases n - i,
    {
        let ghost out_pre = out@;
        match json_to_tag(&items[i]) {
            Some(t) => {
                proof {
                    assert(tag_of(ms[i as int]) == Some(t@));
                }
                out.push(t);
                proof {
                    assert forall|k: int| 0 <= k < i + 1 implies #[trigger] out@[k].deep_view()
                        == tag_of(ms[k])->0 by {
                        if k < i {
                            assert(out_pre[k].deep_view() == tag_of(ms[k])->0);
                            assert(out@[k] == out_pre[k]);
                        }
                    }
                }
            },
            None => {
                proof {
                    assert(tag_of(ms[i as int]) is None);
                    assert(!all_tags(ms));
                }
                return None;
            },
        }
        i = i + 1;
    }
    proof {
        assert(all_tags(ms));
        assert(out.deep_view() =~= tag_models(ms));
    }
    Some(out)
}

fn json_to_entity(v: &JsonValue) -> (r: Option<Entity>)
    ensures
        match r {
            Some(e) => entity_of(jv_model(*v)) == Some(e@),
            None => entity_of(jv_model(*v)) is None,
        },
{
    let account_id: u32 = match get_member(v, "accountId") {
        Some(x) => match x {
            JsonValue::Number(n) => match n {
                Some(a) => {
                    if *a <= u32::MAX as u64 {
                        *a as u32
                    } else {
                        return None;
                    }
                },
                None => {
                    return None;
                },
            },
            _ => {
                return None;
            },
        },
        None => {
            return None;
        },
    };
    let monitor_type: String = match get_member(v, "monitorType") {
        Some(x) => match x {
            JsonValue::Str(s) => s.clone(),
            _ => {
                return None;
            },
        },
        None => {
            return None;
        },
    };
    let name: String = match get_member(v, "name") {
        Some(x) => match x {
            JsonValue::Str(s) => s.clone(),
            _ => {
                return None;
            },
        },
        None => {
            return None;
        },
    };
    let period: u32 = match get_member(v, "period") {
        Some(x) => match x {
            JsonValue::Number(n) => match n {
                Some(p) => {
                    if *p <= u32::MAX as u64 {
                        *p as u32
                    } else {
                        return None;
                    }
                },
                None => {
                    return None;
                },
            },
            _ => {
                return None;
            },
        },
        None => {
            return None;
        },
    };
    let guid: String = match get_member(v, "guid") {
        Some(x) => match x {
            JsonValue::Str(s) => s.clone(),
            _ => {
                return None;
            },
        },
        None => {
            return None;
        },
    };
    let monitored_url: Option<String> = match get_member(v, "monitoredUrl") {
        None => None,
        Some(x) => match x {
            JsonValue::Null => None,
            JsonValue::Str(s) => Some(s.clone()),
            _ => {
                return None;
            },
        },
    };
    let tags: Vec<Tag> = match get_member(v, "tags") {
        Some(x) => match x {
            JsonValue::Array(items) => match json_to_tags(items) {
                Some(ts) => ts,
                None => {
                    return None;
                },
            },
            _ => {
                return None;
            },
        },
        None => {
            return None;
        },
    };
    let e = Entity { account_id, monitor_type, monitored_url, name, period, tags, guid };
    proof {
        assert(entity_of(jv_model(*v)) matches Some(em) && em =~= e@);
    }
    Some(e)
}

fn json_to_entities(items: &Vec<JsonValue>) -> (r: Option<Vec<Entity>>)
    ensures
        match r {
            Some(es) => all_entities(jv_models(items@)) && es.deep_view() == entity_models(
                jv_models(items@),
            ),
            None => !all_entities(jv_models(items@)),
        },
{
    let ghost ms = jv_models(items@);
    proof {
        lemma_jv_models_index(items@);
    }
    let n: usize = items.len();
    let mut out: Vec<Entity> = Vec::new();
    let mut i: usize = 0;
    while i < n
        invariant
            n == items@.len(),
            ms == jv_models(items@),
            ms.len() == n,
            forall|k: int| 0 <= k < n ==> ms[k] == jv_model(items@[k]),
            0 <= i <= n,
            out@.len() == i,
            forall|k: int| 0 <= k < i ==> (#[trigger] entity_of(ms[k])) is Some,
            forall|k: int| 0 <= k < i ==> #[trigger] out@[k].deep_view() == entity_of(ms[k])->0,
        decreases n - i,
    {
        let ghost out_pre = out@;
        match json_to_entity(&items[i]) {
            Some(e) => {
                proof {
                    assert(entity_of(ms[i as int]) == Some(e@));
                }
                out.push(e);
                proof {
                    assert forall|k: int| 0 <= k < i + 1 implies #[trigger] out@[k].deep_view()
                        == entity_of(ms[k])->0 by {
                        if k < i {
                            assert(out_pre[k].deep_view() == entity_of(ms[k])->0);
                            assert(out@[k] == out_pre[k]);
                        }
                    }
                }
            },
            None => {
                proof {
                    assert(entity_of(ms[i as int]) is None);
                    assert(!all_entities(ms));
                }
                return None;
            },
        }
        i = i + 1;
    }
    proof {
        assert(all_entities(ms));
        assert(out.deep_view() =~= entity_models(ms));
    }
    Some(out)
}

impl Response {
    /// Decodes a parsed response body into the envelope, validating its
    /// shape; fails exactly when the body does not decode to an entity
    /// list.
    pub fn from_json(v: &JsonValue) -> (r: Result<Response, QueryError>)
        ensures
            match r {
                Ok(resp) => response_entities(jv_model(*v)) == Some(
                    resp.data.actor.entity_search.results.entities.deep_view(),
                ),
                Err(e) => e == QueryError::BadShape && response_entities(jv_model(*v)) is None,
            },
    {
        let d = match get_member(v, "data") {
            Some(x) => x,
            None => {
                return Err(QueryError::BadShape);
            },
        };
        let a = match get_member(d, "actor") {
            Some(x) => x,
            None => {
                return Err(QueryError::BadShape);
            },
        };
        let es = match get_member(a, "entitySearch") {
            Some(x) => x,
            None => {
                return Err(QueryError::BadShape);
            },
        };
        let rs = match get_member(es, "results") {
            Some(x) => x,
            None => {
                return Err(QueryError::BadShape);
            },
        };
        let entities: Vec<Entity> = match get_member(rs, "entities") {
            Some(x) => match x {
                JsonValue::Array(items) => match json_to_entities(items) {
                    Some(v) => v,
                    None => {
                        return Err(QueryError::BadShape);
                    },
                },
                _ => {
                    return Err(QueryError::BadShape);
                },
            },
            None => {
                return Err(QueryError::BadShape);
            },
        };
        Ok(Response { data: Data { actor: Actor { entity_search: Results { results: Entities { entities } } } } })
    }
}

/// Decodes the primary query's response body: parses the text as JSON and
/// validates its shape down to the entity list.
pub fn parse_primary(body: &str) -> (r: Result<Response, QueryError>)
    ensures
        match parsed_json(body@) {
            None => r matches Err(e) && e == QueryError::BadJson,
            Some(m) => match response_entities(m) {
                Some(es) => r matches Ok(resp)
                    && resp.data.actor.entity_search.results.entities.deep_view() == es,
                None => r matches Err(e) && e == QueryError::BadShape,
            },
        },
{
    match parse_json(body) {
        None => Err(QueryError::BadJson),
        Some(v) => Response::from_json(&v),
    }
}

} // verus!
