use vstd::prelude::*;
use vstd::string::StringExecFns;
use std::collections::HashMap;
use crate::identifier::{spec_parse, Identifier, InvalidIdentifierError};
use crate::progress::{progress_of, spec_progress, PredictionProgress};
use crate::status::Status;

verus! {

#[verifier::external_type_specification]
#[verifier::external_body]
pub struct ExValue(serde_json::Value);

/// Relies on serde_json's derived `Clone` for `Value`: the copy is the same
/// JSON value.
pub assume_specification[ <serde_json::Value as Clone>::clone ](v: &serde_json::Value) -> (r:
    serde_json::Value)
    ensures
        r == *v,
;

/// Where a job was created from.
#[derive(Debug, Clone, Copy, PartialEq, Eq, Structural)]
pub enum Source {
    Web,
    Api,
}

/// The kinds of job updates a webhook can ask for.
#[derive(Debug, Clone, Copy, PartialEq, Eq, Structural)]
pub enum WebhookEventType {
    Start,
    Output,
    Logs,
    Completed,
}

/// A URL to be called on job updates, and the updates it wants.
#[derive(Debug, Clone)]
pub struct Webhook {
    pub url: String,
    pub events: Vec<String>,
}

/// One run of a model on the service. `metrics` holds the service's
/// timing and throughput figures as it sent them.
#[derive(Debug, Clone)]
pub struct Prediction {
    pub id: String,
    pub status: Status,
    pub model: String,
    pub version: String,
    pub input: HashMap<String, serde_json::Value>,
    pub output: Option<serde_json::Value>,
    pub source: Option<Source>,
    pub error: Option<serde_json::Value>,
    pub logs: Option<String>,
    pub metrics: Option<serde_json::Value>,
    pub webhook: Option<String>,
    pub webhook_events_filter: Option<Vec<WebhookEventType>>,
    pub urls: Option<HashMap<String, String>>,
    pub created_at: String,
    pub started_at: Option<String>,
    pub completed_at: Option<String>,
}

impl Prediction {
    /// The latest progress reading in the job's logs; none without logs.
    pub fn progress(&self) -> (r: Option<PredictionProgress>)
        ensures
            match self.logs {
                None => r is None,
                Some(l) => match r {
                    Some(p) => spec_progress(l@) == Some(p.spec_triple()),
                    None => spec_progress(l@) is None,
                },
            },
    {
        match &self.logs {
            Some(logs) => progress_of(logs.as_str()),
            None => None,
        }
    }
}

/// Options sent along with a new job.
#[derive(Debug, Clone)]
pub struct CreatePredictionParams {
    pub webhook: Option<String>,
    pub webhook_completed: Option<String>,
    pub webhook_events_filter: Option<Vec<String>>,
    pub stream: Option<bool>,
}

/// The text of each string of `v`.
pub open spec fn texts(v: Seq<String>) -> Seq<Seq<char>> {
    v.map_values(|s: String| s@)
}

fn copy_strings(v: &Vec<String>) -> (r: Vec<String>)
    ensures
        texts(r@) == texts(v@),
{
    let mut r: Vec<String> = Vec::new();
    let mut i: usize = 0;
    while i < v.len()
        invariant
            i <= v.len(),
            texts(r@) == texts(v@.take(i as int)),
        decreases v.len() - i,
    {
        let ghost before = r@;
        let s = String::from_str(v[i].as_str());
        assert(s@ == v@[i as int]@);
        r.push(s);
        assert(v@.take(i + 1) =~= v@.take(i as int).push(v@[i as int]));
        assert(texts(r@) =~= texts(before).push(s@));
        assert(texts(v@.take(i + 1)) =~= texts(v@.take(i as int)).push(v@[i as int]@));
        i = i + 1;
    }
    assert(v@.take(v.len() as int) =~= v@);
    r
}

impl CreatePredictionParams {
    /// The options of a job made by `run` or `stream`: the webhook's URL and
    /// the updates it wants, and whether to stream events.
    pub fn for_webhook(webhook: Option<&Webhook>, stream: bool) -> (r: CreatePredictionParams)
        ensures
            r.webhook_completed is None,
            r.stream == Some(stream),
            match webhook {
                Some(w) => {
                    &&& r.webhook is Some && r.webhook->0@ == w.url@
                    &&& r.webhook_events_filter is Some
                    &&& texts(r.webhook_events_filter->0@) == texts(w.events@)
                },
                None => r.webhook is None && r.webhook_events_filter is None,
            },
    {
        match webhook {
            Some(w) => CreatePredictionParams {
                webhook: Some(String::from_str(w.url.as_str())),
                webhook_completed: None,
                webhook_events_filter: Some(copy_strings(&w.events)),
                stream: Some(stream),
            },
            None => CreatePredictionParams {
                webhook: None,
                webhook_completed: None,
                webhook_events_filter: None,
                stream: Some(stream),
            },
        }
    }
}

impl CreatePredictionParams {
    /// The options of a job posted straight to a model or deployment: the
    /// webhook's URL, the updates it wants only where it names some, and
    /// streaming only where it is asked for.
    pub fn for_direct(webhook: Option<&Webhook>, stream: bool) -> (r: CreatePredictionParams)
        ensures
            r.webhook_completed is None,
            r.stream == if stream {
                Some(true)
            } else {
                None::<bool>
            },
            match webhook {
                Some(w) => {
                    &&& r.webhook is Some && r.webhook->0@ == w.url@
                    &&& if w.events.len() > 0 {
                        r.webhook_events_filter is Some && texts(r.webhook_events_filter->0@)
                            == texts(w.events@)
                    } else {
                        r.webhook_events_filter is None
                    }
                },
                None => r.webhook is None && r.webhook_events_filter is None,
            },
    {
        let stream = if stream {
            Some(true)
        } else {
            None
        };
        match webhook {
            Some(w) => CreatePredictionParams {
                webhook: Some(String::from_str(w.url.as_str())),
                webhook_completed: None,
                webhook_events_filter: if w.events.len() > 0 {
                    Some(copy_strings(&w.events))
                } else {
                    None
                },
                stream,
            },
            None => CreatePredictionParams {
                webhook: None,
                webhook_completed: None,
                webhook_events_filter: None,
                stream,
            },
        }
    }
}

/// Not exactly one of model, version and deployment was given for a new job.
#[derive(Debug, Clone, Copy, PartialEq, Eq, Structural)]
pub struct SelectorError;

impl SelectorError {
    pub fn to_string(&self) -> (r: String)
        ensures
            r@ == "Exactly one of 'model', 'version', or 'deployment' must be specified."@,
    {
        String::from_str("Exactly one of 'model', 'version', or 'deployment' must be specified.")
    }
}

pub open spec fn selected(o: Option<&str>) -> int {
    if o is Some {
        1
    } else {
        0
    }
}

/// The path a new job is posted to: `/models/{model}/predictions`,
/// `/deployments/{deployment}/predictions`, or `/predictions` for a version
/// (which then goes in the body). Exactly one of the three must be given.
pub fn prediction_path(model: Option<&str>, version: Option<&str>, deployment: Option<&str>) -> (r:
    Result<String, SelectorError>)
    ensures
        selected(model) + selected(version) + selected(deployment) != 1 <==> r is Err,
        r is Ok ==> r->Ok_0@ == match (model, deployment) {
            (Some(m), _) => "/models/"@ + m@ + "/predictions"@,
            (_, Some(d)) => "/deployments/"@ + d@ + "/predictions"@,
            _ => "/predictions"@,
        },
{
    let n: u8 = (if model.is_some() { 1u8 } else { 0u8 }) + (if version.is_some() { 1u8 } else { 0u8 })
        + (if deployment.is_some() { 1u8 } else { 0u8 });
    if n != 1 {
        return Err(SelectorError);
    }
    match (model, deployment) {
        (Some(m), _) => Ok(join3("/models/", m, "/predictions")),
        (_, Some(d)) => Ok(join3("/deployments/", d, "/predictions")),
        _ => Ok(String::from_str("/predictions")),
    }
}

/// How a new job names what it runs: a version id, or a model `owner/name`.
#[derive(Debug, Clone)]
pub enum Target {
    Version(String),
    Model(String),
}

/// The target of a job for `identifier`: its version where it has one,
/// otherwise the model `owner/name`.
pub fn target_of(identifier: &str) -> (r: Result<Target, InvalidIdentifierError>)
    ensures
        match r {
            Err(_) => spec_parse(identifier@) is None,
            Ok(Target::Version(v)) => spec_parse(identifier@) is Some
                && spec_parse(identifier@)->0.version == Some(v@),
            Ok(Target::Model(m)) => spec_parse(identifier@) is Some
                && spec_parse(identifier@)->0.version is None
                && m@ == spec_parse(identifier@)->0.owner + "/"@ + spec_parse(identifier@)->0.name,
        },
{
    let id = Identifier::parse(identifier)?;
    match id.version {
        Some(v) => Ok(Target::Version(v)),
        None => Ok(Target::Model(join3(id.owner.as_str(), "/", id.name.as_str()))),
    }
}

/// The text `a`, then `b`, then `c`.
pub fn join3(a: &str, b: &str, c: &str) -> (r: String)
    ensures
        r@ == a@ + b@ + c@,
{
    let mut s = String::from_str(a);
    s.append(b);
    s.append(c);
    s
}

} // verus!
