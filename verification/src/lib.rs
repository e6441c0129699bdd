//! Verified decision logic of the Kuroya editor shell: request bookkeeping
//! for background tasks, debounce timing, save and session-save scheduling,
//! project search keys, history and job slots, quick open labels, the
//! settings panel (search, labels, apply plan), file-watcher batches, git
//! repository discovery, terminal input and exit reporting, tab layout, and
//! the text sanitizing every status line goes through.
//!
//! Decisions are plain functions (or methods of the `KuroyaApp` model) with
//! contracts over mathematical views; work that needs the file system, a
//! window or threads is described by values the caller carries out.

pub mod startup_requests;
pub mod text;
pub mod paths;
pub mod debounce;
pub mod keyed;
pub mod session_save;
pub mod settings_text;
pub mod labels;
pub mod ranking;
pub mod settings_search;
pub mod settings_panel;
pub mod project_search;
pub mod git_repos;
pub mod app_state;
pub mod quick_open;
pub mod terminal;
pub mod watcher;
pub mod text_layout;
pub mod background_image;
pub mod project_search_state;
pub mod settings_apply;
pub mod save_requests;
pub mod startup_arguments;
pub mod workspace_plugins;
pub mod repository_scan;
pub mod settings_labels;
pub mod project_search_keys;
pub mod session_events;
pub mod sorted_strings;
pub mod plugin_requests;
pub mod quick_open_rank;
pub mod watcher_drain;
