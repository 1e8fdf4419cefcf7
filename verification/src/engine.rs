//! Engine-side state: text conversion, sessions, modes and configuration.

pub mod apps;
pub mod config;
pub mod config_manager;
pub mod config_watch;
pub mod config_watch_fault;
pub mod conversion;
pub mod dm_registry;
pub mod doc_mode;
pub mod ime_mode;
pub mod input_mode;
pub mod lifecycle;
pub mod paging;
pub mod state;
pub mod text_util;
