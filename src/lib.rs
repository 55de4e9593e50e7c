//! Session engine of a voice-interaction server for small embedded devices.
pub mod audio;
pub mod chat;
pub mod json;
pub mod mcp;
pub mod protocol;
pub mod session;
pub mod text;
pub mod turn;
pub mod pacing;
pub mod store;
pub mod config;
pub mod services;
pub mod ota;
pub mod synth;
pub mod llm;
pub mod setup;
