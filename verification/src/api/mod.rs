pub mod accounts;
pub mod auth_keys;
pub mod auth_routes;
pub mod datasets;
pub mod billing;
pub mod billing_flow;
pub mod events;
pub mod handlers;
pub mod import;
pub mod job_codec;
pub mod jobs;
pub mod metrics;
pub mod queue;
pub mod reports;
pub mod requests;
pub mod responses;
pub mod types;
