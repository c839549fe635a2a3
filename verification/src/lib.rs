//! Core logic of an interactive grid-board viewer.
//!
//! The crate keeps the parts of the viewer that need geometric reasoning:
//! a fixed-size board of cell values, the mapping from raw pointer
//! coordinates to a selected cell, and the layout of the drawable
//! primitives (backdrop, selection highlight, grid lines, border) that a
//! rendering backend rasterizes.  Windowing, the event loop and the
//! rasterizer itself stay outside; they hand this crate plain values and
//! take plain values back.

pub mod gameboard;
pub mod gameboard_controller;
pub mod gameboard_view;

pub use crate::gameboard::Gameboard;
pub use crate::gameboard_controller::GameboardController;
pub use crate::gameboard_controller::InputEvent;
pub use crate::gameboard_view::Color;
pub use crate::gameboard_view::DrawCmd;
pub use crate::gameboard_view::GameboardView;
pub use crate::gameboard_view::GameboardViewSettings;
