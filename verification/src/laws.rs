//! What each operation is for, stated over its inputs and its results.
//!
//! The contracts equate results with spec functions. The laws here say what those
//! results amount to: what they have to satisfy, which inputs they tell apart, and
//! how the results of several calls relate.

pub mod addresses;
pub mod caching;
pub mod contents;
pub mod fetching;
pub mod fields;
pub mod identities;
pub mod replays;
pub mod requests;
pub mod texts;
pub mod trust;
