//! Control plane for chaos experiments.
//!
//! An experiment applies a fault to a running system, waits, removes the
//! fault, measures what the fault did to the traffic and files a report.
//! This library holds the part of that which decides: the data model, the
//! reconciliation engine that advances the status of an experiment one step
//! at a time, what each endpoint of the API answers, and the store the
//! endpoints read and write. Everything that reaches the outside world
//! (the clock, the mesh, the agents, the metrics and trace backends, the
//! report sink) is asked for through the engine's requests and done by the
//! caller.
//!
//! - [`models`], [`errors`], [`time`], [`measure`]: the data.
//! - [`engine`]: the steps of a reconciliation pass.
//! - [`laws`]: what holds of every pass, whatever the outside world answers.
//! - [`topology`], [`text`]: the nodes of a call graph; decimal notation.
//! - [`state`], [`http`]: the store of statuses and reports, and the answers
//!   of the API's endpoints.
//! - [`settings`]: the settings of the process.
//! - [`crd`]: the custom resource of the cluster operator and its phases.

pub mod crd;
pub mod engine;
pub mod errors;
pub mod http;
pub mod laws;
pub mod measure;
pub mod models;
pub mod settings;
pub mod state;
pub mod text;
pub mod time;
pub mod topology;
