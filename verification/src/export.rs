//! The export orchestrator's decisions. A run is one primary query, one
//! manifest, and a fan-out of independent script-fetch tasks. This module
//! computes, from the primary response body alone, everything the run
//! writes or launches — the manifest bytes and the task list — and
//! aggregates the per-task outcomes into the run's overall result. The
//! transport calls and the file writes themselves stay outside; their
//! outcomes come back here to be judged.
use crate::errors::{FetchError, QueryError};
use crate::manifest::{manifest_of, render_manifest};
use crate::monitor::{Entity, EntityModel};
use crate::response::{parse_primary, response_entities};
use crate::strutil::{has_prefix, sanitize_name, sanitized, str_has_prefix};
use vstd::prelude::*;

verus! {

/// The manifest's file path.
pub const MANIFEST_PATH: &'static str = "output/monitor.csv";

/// Mathematical model of one script-fetch task.
#[verifier::ext_equal]
pub ghost struct TaskModel {
    pub account_id: u32,
    pub guid: Seq<char>,
    pub name: Seq<char>,
}

/// One script-fetch work item: the account and guid the query is scoped
/// to, and the sanitized monitor name the script file is stored under.
#[derive(Debug)]
pub struct ScriptFetchTask {
    pub account_id: u32,
    pub guid: String,
    pub name: String,
}

impl View for ScriptFetchTask {
    type V = TaskModel;

    open spec fn view(&self) -> TaskModel {
        TaskModel { account_id: self.account_id, guid: self.guid@, name: self.name@ }
    }
}

impl DeepView for ScriptFetchTask {
    type V = TaskModel;

    open spec fn deep_view(&self) -> TaskModel {
        self@
    }
}

/// An entity qualifies for a script fetch when its monitor type begins
/// with the prefix `SCRIPT`.
pub open spec fn qualifies(e: EntityModel) -> bool {
    has_prefix(e.monitor_type, "SCRIPT"@)
}

/// The task an entity gives rise to.
pub open spec fn task_of(e: EntityModel) -> TaskModel {
    TaskModel { account_id: e.account_id, guid: e.guid, name: sanitized(e.name) }
}

/// The tasks of an entity list: one per qualifying entity, in input order.
pub open spec fn tasks_of(es: Seq<EntityModel>) -> Seq<TaskModel>
    decreases es.len(),
{
    if es.len() == 0 {
        Seq::empty()
    } else {
        (if qualifies(es[0]) {
            seq![task_of(es[0])]
        } else {
            Seq::empty()
        }) + tasks_of(es.drop_first())
    }
}

proof fn lemma_tasks_snoc(es: Seq<EntityModel>, i: int)
    requires
        0 <= i < es.len(),
    ensures
        tasks_of(es.take(i + 1)) == tasks_of(es.take(i)) + (if qualifies(es[i]) {
            seq![task_of(es[i])]
        } else {
            Seq::<TaskModel>::empty()
        }),
    decreases i,
{
    let head: Seq<TaskModel> = if qualifies(es[0]) {
        seq![task_of(es[0])]
    } else {
        Seq::empty()
    };
    let last: Seq<TaskModel> = if qualifies(es[i]) {
        seq![task_of(es[i])]
    } else {
        Seq::empty()
    };
    if i == 0 {
        assert(es.take(1) =~= seq![es[0]]);
        assert(seq![es[0]].drop_first() =~= Seq::<EntityModel>::empty());
        assert(es.take(0) =~= Seq::<EntityModel>::empty());
        assert(tasks_of(es.take(1)) =~= tasks_of(es.take(0)) + last);
    } else {
        lemma_tasks_snoc(es.drop_first(), i - 1);
        assert(es.take(i + 1).drop_first() =~= es.drop_first().take(i));
        assert(es.take(i).drop_first() =~= es.drop_first().take(i - 1));
        assert(es.take(i + 1)[0] == es[0]);
        assert(es.take(i)[0] == es[0]);
        assert(es.drop_first()[i - 1] == es[i]);
        assert(tasks_of(es.take(i + 1)) == head + (tasks_of(es.drop_first().take(i - 1)) + last));
        assert(head + (tasks_of(es.drop_first().take(i - 1)) + last) =~= (head + tasks_of(
            es.drop_first().take(i - 1),
        )) + last);
        assert(tasks_of(es.take(i)) == head + tasks_of(es.drop_first().take(i - 1)));
    }
}

/// Builds the script-fetch task list of an entity list: one task per
/// entity whose monitor type begins with `SCRIPT`, in input order, each
/// carrying the entity's account, guid and sanitized name.
pub fn build_tasks(entities: &Vec<Entity>) -> (ts: Vec<ScriptFetchTask>)
    ensures
        ts.deep_view() == tasks_of(entities.deep_view()),
{
    let ghost es = entities.deep_view();
    let mut ts: Vec<ScriptFetchTask> = Vec::new();
    let n: usize = entities.len();
    let mut i: usize = 0;
    while i < n
        invariant
            n == entities@.len(),
            es == entities.deep_view(),
            es.len() == n,
            0 <= i <= n,
            ts.deep_view() == tasks_of(es.take(i as int)),
        decreases n - i,
    {
        let ghost ts_pre = ts.deep_view();
        if str_has_prefix(entities[i].monitor_type.as_str(), "SCRIPT") {
            let t = ScriptFetchTask {
                account_id: entities[i].account_id,
                guid: entities[i].guid.clone(),
                name: sanitize_name(entities[i].name.as_str()),
            };
            proof {
                assert(t@ =~= task_of(es[i as int]));
            }
            ts.push(t);
            proof {
                assert(ts.deep_view() =~= ts_pre + seq![task_of(es[i as int])]);
            }
        }
        proof {
            lemma_tasks_snoc(es, i as int);
            if !qualifies(es[i as int]) {
                assert(ts.deep_view() =~= tasks_of(es.take(i + 1)));
            }
        }
        i = i + 1;
    }
    proof {
        assert(es.take(n as int) =~= es);
    }
    ts
}

/// Everything a run writes or launches, computed from the primary
/// response: the manifest bytes, and the script-fetch tasks to fan out.
#[derive(Debug)]
pub struct ExportPlan {
    pub manifest: Vec<u8>,
    pub tasks: Vec<ScriptFetchTask>,
}

/// Decodes the primary query's response body and plans the run: the
/// manifest with one line per entity in input order, and one script-fetch
/// task per qualifying entity. Fails exactly when the body is not valid
/// JSON or not of the expected shape; nothing of the plan depends on any
/// script-fetch outcome.
pub fn plan_export(body: &str) -> (r: Result<ExportPlan, QueryError>)
    ensures
        match crate::json::parsed_json(body@) {
            None => r matches Err(e) && e == QueryError::BadJson,
            Some(m) => match response_entities(m) {
                Some(es) => r matches Ok(plan) && plan.manifest@ == manifest_of(es)
                    && plan.tasks.deep_view() == tasks_of(es),
                None => r matches Err(e) && e == QueryError::BadShape,
            },
        },
{
    let resp = match parse_primary(body) {
        Ok(resp) => resp,
        Err(e) => {
            return Err(e);
        },
    };
    let entities = &resp.data.actor.entity_search.results.entities;
    let manifest = render_manifest(entities);
    let tasks = build_tasks(entities);
    Ok(ExportPlan { manifest, tasks })
}

/// The first failure among the task outcomes, in task order.
pub open spec fn first_failure(rs: Seq<Result<(), FetchError>>) -> Option<FetchError>
    decreases rs.len(),
{
    if rs.len() == 0 {
        None
    } else {
        match rs[0] {
            Result::Err(e) => Some(e),
            Result::Ok(_) => first_failure(rs.drop_first()),
        }
    }
}

/// Every outcome before position `i` succeeded and the outcome at `i`
/// failed: then the first failure is the one at `i`.
pub proof fn lemma_first_failure_at(rs: Seq<Result<(), FetchError>>, i: int)
    requires
        0 <= i < rs.len(),
        rs[i] is Err,
        forall|j: int| 0 <= j < i ==> rs[j] is Ok,
    ensures
        first_failure(rs) == Some(rs[i]->Err_0),
    decreases i,
{
    if i > 0 {
        assert(rs.drop_first()[i - 1] == rs[i]);
        lemma_first_failure_at(rs.drop_first(), i - 1);
    }
}

/// When every outcome succeeded, there is no failure to report.
pub proof fn lemma_no_failure(rs: Seq<Result<(), FetchError>>)
    requires
        forall|j: int| 0 <= j < rs.len() ==> rs[j] is Ok,
    ensures
        first_failure(rs) is None,
    decreases rs.len(),
{
    if rs.len() > 0 {
        lemma_no_failure(rs.drop_first());
    }
}

/// Partial failure is reported: when exactly one task outcome failed, the
/// run's aggregate is that failure, whatever the failing task's position.
/// The manifest and the other tasks' effects are unaffected: the manifest
/// is a function of the entity list alone, and each outcome enters the
/// aggregate without changing its neighbours.
pub proof fn lemma_partial_failure(rs: Seq<Result<(), FetchError>>, i: int)
    requires
        0 <= i < rs.len(),
        rs[i] is Err,
        forall|j: int| 0 <= j < rs.len() && j != i ==> rs[j] is Ok,
    ensures
        first_failure(rs) == Some(rs[i]->Err_0),
{
    lemma_first_failure_at(rs, i);
}

/// Aggregates the task outcomes into the run's overall result: success
/// exactly when every task succeeded, and the first failure in task order
/// otherwise.
pub fn collect_outcomes(outcomes: &Vec<Result<(), FetchError>>) -> (r: Result<(), FetchError>)
    ensures
        match first_failure(outcomes@) {
            None => r is Ok,
            Some(e) => r matches Err(x) && x == e,
        },
{
    let n: usize = outcomes.len();
    let mut i: usize = 0;
    while i < n
        invariant
            n == outcomes@.len(),
            0 <= i <= n,
            forall|j: int| 0 <= j < i ==> outcomes@[j] is Ok,
        decreases n - i,
    {
        match &outcomes[i] {
            Result::Err(e) => {
                proof {
                    lemma_first_failure_at(outcomes@, i as int);
                }
                return Err(*e);
            },
            Result::Ok(_) => {},
        }
        i = i + 1;
    }
    proof {
        lemma_no_failure(outcomes@);
    }
    Ok(())
}

} // verus!
