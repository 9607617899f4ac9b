//! Core of Glimt, a screenshot and screen-recording tool.
//!
//! The library holds what the program decides and computes: the geometry of selections,
//! the course of a capture, the region picker, the control pill, the pace of a recording,
//! and what is handed to encoders and files.
pub mod autostart;
pub mod capture;
pub mod chrome;
pub mod config;
pub mod control;
pub mod encode_gif;
pub mod encode_mp4;
pub mod export;
pub mod geom;
pub mod hotkey;
pub mod marks;
pub mod overlay;
pub mod picker;
pub mod pill;
pub mod pixels;
pub mod record;
pub mod session;
pub mod single_instance;
pub mod text;
pub mod tray;
