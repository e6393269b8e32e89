//! Discovery and launch supervision for a local server that exposes an HTTP
//! health endpoint on a port that is not known in advance.
//!
//! The I/O (reading the hint file, HTTP probes, spawning and killing the
//! process, sleeping) is left to the host; the decisions are made here and
//! carry contracts.
pub mod url;
pub mod server_info;
pub mod locator;
pub mod launcher;
