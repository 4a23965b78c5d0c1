pub mod connection;
pub mod discovery;
pub mod github;
pub mod github_view;
pub mod json;
pub mod linear;
pub mod linear_view;
pub mod protocol;
pub mod session;
pub mod subagent_tree;
pub mod subagents;
pub mod terminal;
pub mod terminal_view;
pub mod text;
pub mod ui;
pub mod ui_request_prompt;
