pub mod api;
pub mod auth;
pub mod clock;
pub mod daemon;
pub mod ids;
pub mod json;
pub mod memfs;
pub mod proxy;
pub mod storage;
pub mod text;
pub mod trace;
pub mod turbopuffer;
pub mod wire;
