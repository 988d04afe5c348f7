//! Translates wireless access-point event lines into REST calls on a
//! presence service.
pub mod action;
pub mod entry;
pub mod handler;
pub mod options;
mod text;
