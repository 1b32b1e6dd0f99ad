//! The event model and render orchestration of a terminal user interface:
//! key-combination parsing and formatting, routing of events and actions to
//! a fixed set of components, and a drawing pass that skips unchanged frames.

pub mod text;
pub mod geometry;
pub mod layout;
pub mod modifiers;
pub mod key;
pub mod component_name;
pub mod app_error;
pub mod grammar;
pub mod event;
pub mod action;
pub mod app_context;
pub mod component;
pub mod tui;
