//! The policy core of a tag-based tiling window manager.
//!
//! The crate owns the model of windows, tags, layouts and focus, turns key
//! bindings, pointer events and commands into changes of that model, and
//! computes the rectangle of every tiled window. The display layer around
//! it reports windows and input and applies the rectangles.
//!
//! - [`types`]: geometry, handles, window records, tags, the configuration.
//! - [`layouts`]: the layout engine.
//! - [`model`]: the state as mathematical values, its invariant, its
//!   transitions and the laws that hold of them.
//! - [`window_manager`]: the window manager and its operations.
//! - [`action`], [`keybindings`], [`input`]: from input to operations.
//! - [`cli`]: the command surface.
//! - [`config`]: the built-in configuration and its validation.
//! - [`top_bar`]: what the bar shows.
//! - [`workspace`]: the workspaces of the plain compositor loop.
//! - [`table`], [`text`], [`error`]: string-keyed maps, text helpers, errors.

pub mod action;
pub mod cli;
pub mod config;
pub mod error;
pub mod input;
pub mod keybindings;
pub mod layouts;
pub mod model;
pub mod table;
pub mod text;
pub mod top_bar;
pub mod types;
pub mod window_manager;
pub mod workspace;
