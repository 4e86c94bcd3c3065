//! Profile discovery, preferences and avatar preparation for a browser
//! profile picker.
//!
//! The library decides and computes; it reads no file, asks no registry and
//! starts no program. Its caller does those things and hands in what it
//! found.

pub mod chrome_interface;
pub mod color;
pub mod display;
pub mod document;
pub mod error;
pub mod http_utils;
pub mod json;
pub mod launch;
pub mod paths;
pub mod picture;
pub mod prefs;
pub mod profiles;
pub mod raster;
pub mod registry_utils;
pub mod text;
