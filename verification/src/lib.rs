//! Core of an interactive task browser: a hierarchical task store, the
//! depth-first view derived from it, focus navigation between widgets and
//! the decisions of the menu loop. Terminal drawing and file access are left
//! to the program that embeds this crate.

pub mod bottom_bar;
pub mod button;
pub mod create_task_menu;
pub mod focus_controller;
pub mod input_widget;
pub mod key;
pub mod logic;
pub mod main_menu;
pub mod menu;
pub mod multiple_option_widget;
pub mod stateful_list;
pub mod store_laws;
pub mod task;
pub mod task_manager;
pub mod text;
pub mod time;
pub mod tree_view;
pub mod ui_state;
pub mod widget;
