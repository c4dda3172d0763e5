//! The decisions of a plugin editor whose UI is drawn by Slint in a window of baseview.
//!
//! An editor is described by [`editor::SlintEditor`]; what outlives its window is a
//! [`state::SlintEditorState`]. [`opening`] says how a window is opened and [`frame`] what
//! happens in each of its frames. An open window is a [`handler::WindowHandler`]: it takes
//! over the sizes that the windowing system reports, and [`dispatch`] is how it reacts to
//! mouse, keyboard and window events. [`resize`] decides who may resize the window.
//!
//! Floating-point numbers appear as bit patterns, see [`float_bits`]. Quotients and products
//! of them are handed out as their operands. [`effects`] states what each operation
//! does with its input, [`laws`] what holds across operations.
pub mod adapter;
pub mod dispatch;
pub mod editor;
pub mod effects;
pub mod event;
pub mod float_bits;
pub mod frame;
pub mod handler;
pub mod keys;
pub mod laws;
pub mod opening;
pub mod resize;
pub mod state;
