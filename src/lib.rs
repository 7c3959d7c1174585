//! Triage of public-procurement tender notices: feature extraction from the
//! notice text, an exclusion filter for out-of-scope sectors, a weighted
//! scoring model with a bid threshold, and routing between analysis stages.
//!
//! Real quantities are fixed-point integers in millionths (see [`fixed`]).
pub mod fixed;
pub mod text;
pub mod tender;
pub mod features;
pub mod scoring;
pub mod routing;
pub mod codes;
pub mod notify;
pub mod summary;
