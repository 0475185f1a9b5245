//! Acquisition and decoding core for a live spectral-monitoring tool.
//!
//! The library decodes the on-disk spectrometer frame format, resolves
//! antenna topology, drives the correlation-based distributed spectrum
//! query, and holds the decision logic of the remote frame poller and
//! the acquisition scheduler.  Terminal rendering and all I/O live
//! outside the library and consume only the data model built here.

pub mod bytes;
pub mod config;
pub mod error;
pub mod frame;
pub mod header;
pub mod json;
pub mod north_arm;
pub mod ovro;
pub mod polarization;
pub mod query;
pub mod scheduler;
pub mod stats;
pub mod text;
pub mod topology;
