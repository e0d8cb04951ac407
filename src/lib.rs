//! A client library for running jobs on a hosted inference service: the
//! retry policy of its requests, the parsing of model identifiers, job
//! progress and event streams, and the decisions of its polling and
//! streaming loops.
use vstd::prelude::*;

pub mod backoff;
pub mod error;
pub mod fetch;
pub mod framing;
pub mod identifier;
pub mod prediction;
pub mod progress;
pub mod pump;
pub mod resources;
pub mod run;
pub mod status;
pub mod stream;
pub mod text;

pub use crate::backoff::{Backoff, ConstantBackoff, ExponentialBackoff};
pub use crate::error::{APIError, ModelError};
pub use crate::identifier::{Identifier, InvalidIdentifierError};
pub use crate::prediction::{CreatePredictionParams, Prediction, Source, Webhook, WebhookEventType};
pub use crate::progress::PredictionProgress;
pub use crate::resources::{
    Account, Collection, CreateDeploymentOptions, CreateFileOptions, CreateModelOptions, Deployment,
    DeploymentConfiguration, DeploymentRelease, File, Model, ModelVersion, Page, Training,
    UpdateDeploymentOptions, WebhookEvent,
};
pub use crate::status::Status;
pub use crate::stream::{InvalidUTF8DataError, SSEEvent};

verus! {

} // verus!
