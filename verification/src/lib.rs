//! Core logic of a terminal chat client: a boundary-safe text editing
//! engine over UTF-8 byte buffers, focus-aware input widgets, form
//! validation, and the event dispatch rules that tie them together.
//!
//! Terminal I/O, rendering and persistence are deliberately outside this
//! library; they hand plain values in and take plain values back.

pub mod boundary;
pub mod events;
pub mod keys;
pub mod text_editor;
pub mod text_input;
pub mod user_registration;
pub mod validation;
pub mod command;
pub mod userinfo;
pub mod chat_area;
pub mod application_ui;
pub mod application;
pub mod tables;
