//! The concrete sourcing strategies: primitive literals, full JSON and
//! YAML documents, and rendered Markdown documents.

pub mod gfm;
pub mod json;
pub mod markdown;
pub mod primitives;
pub mod yaml;
