//! Verified core of an object-storage bridge: the registry of live streaming
//! sessions, the decision logic of download and listing streams, the buffering
//! policy of multipart uploads, and the classification of backend errors.

pub mod errors;
pub mod ids;
pub mod upload;
pub mod registry;
pub mod types;
pub mod meta;
pub mod streaming;
pub mod bulk;
