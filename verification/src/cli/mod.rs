pub mod templates;
pub mod studio_page;
pub mod config;
pub mod commands;
pub mod snippets;
pub mod package;
pub mod studio;
pub mod project_cmd;
