//! A portable cryptographic job-processing core: a round-robin request
//! dispatcher, a fixed-capacity memory pool, and a crypto layer offering
//! AES-GCM authenticated encryption and a deterministic random-bit generator.
pub mod limits;
pub mod jobs;
pub mod gcm;
pub mod pool;
pub mod rng;
pub mod dispatch;
