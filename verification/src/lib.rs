//! A themed widget kit for reactive desktop user interfaces.
//!
//! The crate holds the decisions behind the widgets: which colour a widget
//! shows in which interaction state, how a numeric field keeps its typed value
//! and its edit buffer in step, and how a radio group tracks its selection.
//! Each of them is a function on plain values with a proved contract; drawing
//! and event delivery belong to the host toolkit.
pub mod accents;
pub mod color;
pub mod decimal;
pub mod integer;
pub mod options;
pub mod style;
pub mod theme;

pub mod button;
pub mod checkbox;
pub mod header;
pub mod label;
pub mod numeric_input;
pub mod padded_container;
pub mod radio;
pub mod root_view;
pub mod text_input;
