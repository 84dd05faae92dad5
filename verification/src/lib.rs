//! Verified core of a terminal configuration tool: the menu and view state
//! machines, the widgets' geometry and the text that every screen shows.
//! Terminal drawing, the wireless daemon and process spawning live in the
//! application around this library.

pub mod action;
pub mod components;
pub mod input;
pub mod layout;
pub mod networks;
pub mod selection;
pub mod sorting;
pub mod text;
pub mod widgets;
