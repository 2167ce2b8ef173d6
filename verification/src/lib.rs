//! The decision logic of a voice and text desktop assistant: it keeps the
//! conversation state, plans the tool calls that a language model asks for,
//! maps application names to packages, and turns the outcomes of programs and
//! web requests into messages for the user.
pub mod text;
pub mod json;
pub mod config;
pub mod ai;
pub mod app;
pub mod app_laws;
pub mod knowledge;
pub mod knowledge_names;
pub mod actions;
pub mod audio;
