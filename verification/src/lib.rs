//! Agent runtime, tool daemons and terminal clients: the verified core.

pub mod text;
pub mod json;
pub mod style;
pub mod maps;
pub mod paths;
pub mod errors;

pub mod messages;
pub mod context;
pub mod metadata;
pub mod sessions;
pub mod permissions;
pub mod hooks;
pub mod state;
pub mod output;
pub mod internals;
pub mod subagents;
pub mod runtime;
pub mod agent_config;
pub mod answers;

pub mod anthropic;

pub mod loop_server;
pub mod shell_tools;

pub mod loop_client;
pub mod line_client;
pub mod renderer;
pub mod list_numbers;
pub mod markdown;
pub mod markdown_reader;
pub mod markdown_room;
pub mod terminal;
pub mod daemon_events;
pub mod daemon_reader;
pub mod terminal_loop;
pub mod chat;
pub mod chat_text;
pub mod chat_events;
pub mod chat_commands;
pub mod chat_keys;
pub mod chat_view;
pub mod chat_render;
