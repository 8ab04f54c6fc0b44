//! A host for low-latency native audio streams: device capability probing,
//! default configuration selection, stream builder parameters, callback
//! bridging and error mapping, each with a verified contract.
pub mod audio_manager;
pub mod config;
pub mod convert;
pub mod host;
pub mod jni_utils;
pub mod probe;
pub mod stream;
