//! The state machine behind an interactive terminal form: Unicode text
//! buffers, circular list selection, an autocomplete filter, focus control
//! over a partly collapsible field order, and the routing of key events.
mod text;
pub mod text_field;
pub mod loop_list;
pub mod autocomplete;
pub mod key;
pub mod handler;
pub mod controller;
pub mod brag;
pub mod error;
pub mod partial_date;
pub mod model;
pub mod validation;
pub mod screen;
pub mod form;
pub mod type_list;
