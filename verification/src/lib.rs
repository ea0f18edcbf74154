//! The logic of a manager for disposable notes, each named after the time of
//! its creation: the selection cursor, the filtered view of the note list,
//! the text buffers, the session controller, the key bindings, what a frame
//! shows, and how notes are named and listed. Files, the editor and the
//! terminal are reached through the traits `ServiceTrait` and
//! `TerminalManage`, which the program around this library implements.

pub mod app_interactor;
pub mod datetime_helper;
pub mod display_data;
pub mod error;
pub mod filtered_list;
pub mod input_handler;
pub mod kakisute_file;
pub mod kakisute_list;
pub mod list_index;
pub mod pattern;
pub mod renderer;
pub mod service;
pub mod terminal_manager;
pub mod text_input;
