//! Request-execution planning: a type-state builder that assembles plans out of
//! decorators (lock resolution, region retry, multi-region fan-out, merging,
//! post-processing and error extraction), with the decisions each decorator takes
//! stated and proved.
pub mod backoff;
pub mod error;
pub mod merge;
pub mod region;
pub mod request;
pub mod plan;
pub mod plan_builder;
