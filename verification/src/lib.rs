//! Verified decision logic of a terminal dashboard that drives coding agents in
//! tmux sessions, one per git worktree.
pub mod action_laws;
pub mod agent_state;
pub mod background;
pub mod background_laws;
pub mod background_runtime;
pub mod command_laws;
pub mod commands;
pub mod dashboard;
pub mod dialog;
pub mod dialog_laws;
pub mod form;
pub mod frame;
pub mod frame_laws;
pub mod git_actions;
pub mod harness;
pub mod input;
pub mod input_laws;
pub mod job_laws;
pub mod jobs;
pub mod keys;
pub mod list_laws;
pub mod model;
pub mod move_laws;
pub mod navigation;
pub mod navigation_laws;
pub mod notices;
pub mod order;
pub mod prompt_laws;
pub mod routing;
pub mod run_book;
pub mod run_laws;
pub mod runs;
pub mod session_laws;
pub mod shell;
pub mod shutdown;
pub mod status;
pub mod table;
pub mod text;
pub mod text_laws;
pub mod tmux;
pub mod tmux_call_laws;
pub mod tmux_flow;
pub mod tmux_laws;
pub mod toggle;
pub mod tracker;
pub mod tui;
pub mod work_laws;
