//! Verified core of a crowdsourced transit-signal tracking server.
//!
//! Volunteers record GPS trajectories ("runs") while receivers capture the
//! radio telegrams of transit vehicles. This crate holds the rules that
//! govern a run's life, who may touch it, how its trace is matched against
//! telegrams, and how raw location guesses are folded into one canonical
//! table. Everything is stated over plain values, so that the surrounding
//! server can load rows, ask the library what to do, and store the answer.

pub mod canonical;
pub mod config;
pub mod gps;
pub mod ids;
pub mod locations;
pub mod management;
pub mod routes;
pub mod structs;
pub mod telegrams;
pub mod time;
pub mod track;
pub mod trekkie;
pub mod utils;

