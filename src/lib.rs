pub mod dispatch;
pub mod json;
pub mod kv;
pub mod media;
pub mod render;
pub mod request;
