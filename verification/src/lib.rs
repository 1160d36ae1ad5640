//! Colour themes for Termux: a catalog of themes, the menu that lists them,
//! and the session that reads one line and applies the theme it selects or
//! resets the colours.
//!
//! The library decides and does no input or output of its own. A session
//! hands out one [`action::Action`] at a time and is told what came of it
//! with a [`session::Event`].
pub mod action;
pub mod catalog;
pub mod history;
pub mod menu;
pub mod session;
pub mod text;
pub mod theme_data;
