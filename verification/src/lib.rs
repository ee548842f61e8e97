//! The verified core of a screen recorder.
//!
//! The library decides and computes; capturing, encoding, files, windows and
//! buses are for its caller. Where the two have to take turns, the library
//! says what to do next and is told what came of it: [`plan`] for assembling
//! pipelines, [`record`] for running them, [`portal`] for negotiating with the
//! desktop, [`session`] for the window.

pub mod audio;
pub mod cli;
pub mod commands;
pub mod config;
pub mod duration;
pub mod error;
pub mod failures;
pub mod form;
pub mod gui;
pub mod hotkey;
pub mod made;
pub mod models;
pub mod outside;
pub mod paths;
pub mod pipeline;
pub mod plan;
pub mod portal;
pub mod record;
pub mod session;
pub mod source;
pub mod text;
pub mod wiring;
pub mod x11_query;
