//! Host-side bookkeeping for an audio instrument plugin: discovery cache,
//! reference-counted plugin modules, the component lifecycle, the realtime
//! audio bridge and the orchestration that ties them together.
//!
//! The foreign component, the audio driver and the window system are reached
//! by the embedding program. This library decides what is asked of them and
//! in which order, and keeps the state that those decisions rest on.

pub mod application;
pub mod audio;
pub mod audio_processor;
pub mod base;
pub mod cache;
pub mod document;
pub mod edit_controller;
pub mod error;
pub mod events;
pub mod guid;
pub mod host;
pub mod instance;
pub mod instrument;
pub mod painter;
pub mod parameters;
pub mod plugin;
pub mod registry;
pub mod sample;
pub mod stream;
pub mod strmap;
pub mod text;
pub mod time;
pub mod utils;
pub mod view;
pub mod window;
