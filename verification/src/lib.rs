//! The decisions of a winit window backend for egui: how platform input
//! becomes egui input, and what the event loop does with the state it keeps.
//!
//! - `keys`: platform keys and the egui keys they stand for.
//! - `input`: modifier keys, mouse buttons, key and touch states.
//! - `events`: egui's input events and the input gathered for a frame.
//! - `backend`: the backend's state and how window events and the event
//!   loop's phases change it.
//! - `config`: the user's configuration.
//! - `event_loop`: what holds over a whole run of the event loop.

pub mod keys;
pub mod input;
pub mod events;
pub mod backend;
pub mod config;
pub mod event_loop;
