//! Integration with Communitas through the Model Context Protocol: the
//! catalogue of tools and the data the client exchanges.

pub mod client;
pub mod categories;

pub use client::{McpToolCategory, ToolInfo, get_tools_for_category, get_all_tools};
