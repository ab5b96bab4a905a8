//! Declarative REST method descriptions, their compilation into request URIs,
//! response classification and the rate-limit aware retry decisions.

pub mod executor;
pub mod json;
pub mod method;
pub mod params;
pub mod response;
pub mod text;
pub mod uri;
