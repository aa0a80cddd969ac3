//! Media-editing job descriptions, the argument lists they turn into for an
//! external media tool, and the parsing of the tool's status output.

pub mod download;
pub mod filters;
pub mod invocation;
pub mod models;
pub mod probe;
pub mod progress;
pub mod scan;
pub mod session;
pub mod text;
pub mod textlist;
