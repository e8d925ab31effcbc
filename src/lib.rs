//! A host for sandboxed guest components: it picks an artifact, drives the
//! load, link, instantiate and call stages, and decides what to report.

pub mod selector;
pub mod errors;
pub mod shape;
pub mod artifact;
pub mod lifecycle;
pub mod report;
pub mod laws;
