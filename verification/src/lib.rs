//! The decisions behind the `screenpipe` command line: where data lives, what
//! is logged, what is printed, and which requests each command makes.

pub mod text;
pub mod text_laws;
pub mod json;
pub mod place;
pub mod files;
pub mod github;
pub mod traversal;
pub mod cli;
pub mod report;
pub mod report_laws;
pub mod pipes;
pub mod pipe_laws;
pub mod pipe_report_laws;
pub mod mcp;
pub mod mcp_laws;
pub mod mcp_report_laws;
pub mod migrate;
pub mod directives;
pub mod logging;
pub mod logging_laws;
pub mod table;
pub mod table_laws;
pub mod devices;
pub mod lifecycle;
pub mod startup_laws;
pub mod view_laws;
