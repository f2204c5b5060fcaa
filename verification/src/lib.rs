//! Update-check-and-fetch core for the OpenVGDB database archive.
//!
//! The library decides whether a newer release of the packaged database
//! exists, derives the download location for it, and extracts the payload
//! from a downloaded archive.  All network and file traffic stays with the
//! caller: the library works on the bytes and strings it is handed.

pub mod archive;
pub mod feed;
pub mod resolver;
pub mod startup;
