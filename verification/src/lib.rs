//! WaterDrop sends files between devices on a local network.
//!
//! This library is everything about it that can be decided without input or output:
//!
//! - what travels: [`protocol`] (frames and messages), [`buffer`] (the bytes they are read
//!   from), [`transfer`] (a file, in chunks), [`filename`] (what a received file is called);
//! - who talks: [`session`] (one peer), [`session_laws`] (what holds of sessions as a whole),
//!   [`session_outcomes`] (what comes of everything that can happen to one), [`engine`]
//!   (all of them), [`mux`] (the streams of one connection), [`message_processor`];
//! - whom to trust: [`tls`] (certificates), [`quic`] (trust on first use);
//! - what the user sees and does: [`bridge`], [`devices`], [`command`], [`event`], [`size`];
//! - where things are: [`config`], [`storage`];
//! - [`text`], for all of them.
pub mod bridge;
pub mod buffer;
pub mod command;
pub mod config;
pub mod devices;
pub mod engine;
pub mod event;
pub mod filename;
pub mod message_processor;
pub mod mux;
pub mod protocol;
pub mod quic;
pub mod session;
pub mod session_laws;
pub mod session_outcomes;
pub mod size;
pub mod storage;
pub mod text;
pub mod tls;
pub mod transfer;
