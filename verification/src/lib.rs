//! A PBR material studio: its state, and the decisions about it.

pub mod app;
pub mod brand;
pub mod data;
pub mod document;
pub mod laws;
pub mod library;
pub mod modals;
pub mod pixels;
pub mod preview;
pub mod render;
pub mod secrets;
pub mod settings;
pub mod state;
pub mod store;
pub mod text;
pub mod theme;
pub mod widgets;
pub mod workspace;
