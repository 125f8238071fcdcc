//! Verified core of a freezer monitoring service: sensor, alarm, firmware and
//! login rules, separated from the HTTP server, the database and the network.

pub mod text;
pub mod firmware;
pub mod antwort;
pub mod auth;
pub mod alarm;
pub mod modelle;
pub mod fehler;
pub mod server;
pub mod zeit;
