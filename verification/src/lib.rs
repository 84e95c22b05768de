//! A verified core for a wallpaper-rotation service.
//!
//! The library covers the logic that decides *which* image is shown:
//! blacklist matching, directory-scan filtering, configuration
//! normalization, the dimension-based acceptance filter, and the
//! local/remote mode arbitration.  The surrounding process (file system
//! walks, HTTP fetches, image decoding, the wallpaper call itself) hands
//! this library plain values and acts on what it returns.

pub mod config;
pub mod cycle;
pub mod file_list;
pub mod metadata;
mod rng;
pub mod text;
