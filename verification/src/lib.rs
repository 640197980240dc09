//! The decisions of a terminal media player that plays from several
//! backends at once: the protocol between the front end and the backends,
//! the player state machine, the handle that the orchestrator keeps on each
//! backend, and the orchestrator itself with its menu cursor.
//!
//! The library decides and keeps state; it never waits, reads or sends. Each
//! entry point takes what has happened and says what is to be done, so that
//! the program around it is left with the channels, the timers and the
//! calls on the engine and the services.
//!
//! Every function is verified: it does not panic, and its contract says
//! what it returns and how it changes its state.

pub mod app;
pub mod catalog;
pub mod config;
pub mod direct;
pub mod engine;
pub mod events;
pub mod local;
pub mod menu;
pub mod mpris;
pub mod orchestrator;
pub mod panels;
pub mod player;
pub mod playlist;
pub mod protocol;
pub mod proxy;
pub mod seek;
pub mod sources;
pub mod spotify;
pub mod text;
pub mod theorems;
pub mod tui;
pub mod worker;
pub mod youtube;
