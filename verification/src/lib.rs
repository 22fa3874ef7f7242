//! A platform-abstraction core for display and window capture.
//!
//! The library normalizes what heterogeneous display servers report —
//! monitor geometry, DPI scaling, rotation metadata, window stacking —
//! into one consistent data model, and turns raw pixel buffers into
//! normalized RGBA images. Per-backend adapters decode the wire-level
//! protocol outside this crate and hand in plain values; everything
//! that decides, filters, associates or converts is verified here.

pub mod backend;
pub mod capture;
pub mod error;
pub mod geometry;
pub mod guard;
pub mod image;
pub mod monitor;
pub mod window;
