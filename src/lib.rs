//! A pool of workers that drain a shared, lock-protected queue of outbound
//! broker messages and publish them, with the per-worker decisions, the queue
//! operations and the caller-facing facade stated and proved here.
pub mod client;
pub mod config;
pub mod headers;
pub mod message;
pub mod metadata;
pub mod publisher;
pub mod shutdown;
pub mod work_queue;
pub mod worker;
