//! Decision logic of the Jester file watcher and DeepLynx uploader.
//!
//! The watcher scans configured glob patterns, decides for every matching
//! file whether it has to be (re)sent to DeepLynx, and routes it to the
//! configured timeseries and metadata data sources.  Everything that reads
//! the disk, the database or the network lives in the binary around this
//! library; here are the rules it follows, with their proofs.

pub mod errors;
pub mod checksum;
pub mod config;
pub mod deep_lynx;
pub mod decimal;
pub mod messages;
pub mod plugin;
pub mod registry;
pub mod timestamps;
pub mod watch;
