//! Invisibly: endpoint-integrity scoring, drift detection, trust tracking and
//! repair planning, with every decision stated as a contract and proved.

pub mod text;
mod clock;
pub mod trust;
pub mod integrity;
pub mod state;
pub mod detect;
pub mod order;
pub mod behavior;
pub mod policy;
pub mod crypto;
pub mod timeline;
pub mod baseline;
pub mod repair;
pub mod server;
pub mod autorepair;
pub mod daemon;
pub mod watcher;
pub mod license;
pub mod tray;
pub mod config;
pub mod probes;
