//! Threshold proofs over a private score: a commitment to `score - threshold`
//! together with a range proof, an asynchronous job pipeline around it, and an
//! independent check of the published artifact.
pub mod audit;
pub mod codec;
pub mod crypto;
pub mod decimal;
pub mod job;
pub mod params;
pub mod protocol;
pub mod service;
pub mod store;
