//! Issue aggregation and release-note rendering for a repository's issue
//! tracker: a filter over issues, the grouping of issues into titled
//! sections, the rendering of those sections through a template, and the
//! computation of bulk label and milestone patches.

pub mod text;
pub mod lexical;
pub mod error;
pub mod issue;
pub mod config;
pub mod filter;
pub mod search;
pub mod query;
pub mod listing;
pub mod patch;
pub mod patch_laws;
pub mod update;
pub mod section;
pub mod section_laws;
pub mod contributor;
pub mod render;
pub mod template;
pub mod note;
pub mod command;
