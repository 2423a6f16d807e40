pub mod cloud;
pub mod config;
pub mod ingest;
pub mod pid;
pub mod supervise;
