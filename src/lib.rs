//! Decision logic of a single-host remote-desktop streaming server, with
//! its contracts proved: the token store and offer authentication, ICE
//! candidate assembly and STUN requests, framing of datagrams over TCP,
//! encoder settings and bitrate adaptation, the per-session event dispatch
//! with data-channel backpressure, file transfers, and input replay.
pub mod audio;
pub mod candidates;
pub mod config;
pub mod display;
pub mod encoder;
pub mod framing;
pub mod input;
pub mod keymap;
pub mod keys;
pub mod session;
pub mod signaling;
pub mod stun;
pub mod table;
pub mod text;
pub mod transfer;
