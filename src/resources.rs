use vstd::prelude::*;
use std::collections::HashMap;
use crate::prediction::Prediction;

verus! {

/// The account that a token belongs to.
#[derive(Debug, Clone)]
pub struct Account {
    pub account_type: String,
    pub username: String,
    pub name: String,
    pub github_url: String,
}

impl Account {
    pub fn new(account_type: String, username: String, name: String, github_url: String) -> (r: Account)
        ensures
            r.account_type == account_type,
            r.username == username,
            r.name == name,
            r.github_url == github_url,
    {
        Account { account_type, username, name, github_url }
    }
}

/// One page of a listing, with the URLs of its neighbours.
#[derive(Debug, Clone)]
pub struct Page<T> {
    pub results: Vec<T>,
    pub next: Option<String>,
    pub previous: Option<String>,
}

impl<T> Page<T> {
    /// A page that holds `results` and has no neighbours.
    pub fn new(results: Vec<T>) -> (r: Page<T>)
        ensures
            r.results == results,
            r.next is None,
            r.previous is None,
    {
        Page { results, next: None, previous: None }
    }
}

/// A model hosted on the service.
#[derive(Debug, Clone)]
pub struct Model {
    pub url: String,
    pub owner: String,
    pub name: String,
    pub description: String,
    pub visibility: String,
    pub github_url: String,
    pub paper_url: String,
    pub license_url: String,
    pub run_count: i32,
    pub cover_image_url: String,
    pub default_example: Option<Prediction>,
    pub latest_version: Option<ModelVersion>,
}

/// One version of a model.
#[derive(Debug, Clone)]
pub struct ModelVersion {
    pub id: String,
    pub created_at: String,
    pub cog_version: String,
    pub openapi_schema: serde_json::Value,
}

/// The settings of a new model.
#[derive(Debug, Clone)]
pub struct CreateModelOptions {
    pub visibility: String,
    pub hardware: String,
    pub description: Option<String>,
    pub github_url: Option<String>,
    pub paper_url: Option<String>,
    pub license_url: Option<String>,
    pub cover_image_url: Option<String>,
}

/// A curated set of models.
#[derive(Debug, Clone)]
pub struct Collection {
    pub name: String,
    pub slug: String,
    pub description: String,
    pub models: Option<Vec<Model>>,
}

/// A named, fixed endpoint that runs a model version.
#[derive(Debug, Clone)]
pub struct Deployment {
    pub owner: String,
    pub name: String,
    pub current_release: DeploymentRelease,
}

/// One release of a deployment.
#[derive(Debug, Clone)]
pub struct DeploymentRelease {
    pub number: i32,
    pub model: String,
    pub version: String,
    pub created_at: String,
    pub created_by: Account,
    pub configuration: DeploymentConfiguration,
}

/// The hardware and scaling of a deployment.
#[derive(Debug, Clone)]
pub struct DeploymentConfiguration {
    pub hardware: String,
    pub min_instances: i32,
    pub max_instances: i32,
}

/// The settings of a new deployment.
#[derive(Debug, Clone)]
pub struct CreateDeploymentOptions {
    pub name: String,
    pub model: String,
    pub version: String,
    pub hardware: String,
    pub min_instances: i32,
    pub max_instances: i32,
}

/// The settings of a deployment to change; absent ones stay.
#[derive(Debug, Clone)]
pub struct UpdateDeploymentOptions {
    pub model: Option<String>,
    pub version: Option<String>,
    pub hardware: Option<String>,
    pub min_instances: Option<i32>,
    pub max_instances: Option<i32>,
}

/// A file uploaded to the service.
#[derive(Debug, Clone)]
pub struct File {
    pub id: String,
    pub name: String,
    pub content_type: String,
    pub size: i64,
    pub etag: String,
    pub checksums: HashMap<String, String>,
    pub metadata: HashMap<String, String>,
    pub created_at: String,
    pub expires_at: Option<String>,
    pub urls: HashMap<String, String>,
}

/// How to describe a file being uploaded.
#[derive(Debug, Clone)]
pub struct CreateFileOptions {
    pub filename: Option<String>,
    pub content_type: Option<String>,
    pub metadata: Option<HashMap<String, String>>,
}

/// A training job of a model version.
#[derive(Debug, Clone)]
pub struct Training {
    pub id: String,
    pub version: String,
    pub status: String,
    pub input: serde_json::Value,
    pub output: Option<serde_json::Value>,
    pub error: Option<String>,
    pub logs: Option<String>,
    pub webhook_completed: Option<String>,
}

/// One call of a webhook, as the service recorded it.
#[derive(Debug, Clone)]
pub struct WebhookEvent {
    pub id: String,
    pub created_at: String,
    pub destination: String,
    pub event_type: String,
    pub data: serde_json::Value,
}

} // verus!
