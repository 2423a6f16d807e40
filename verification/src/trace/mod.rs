pub mod analytics;
pub mod codec;
pub mod codec_datasets;
pub mod codec_entities;
pub mod entities;
pub mod kind;
pub mod span;
