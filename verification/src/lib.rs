//! Payloads framed as containers, and the block-grid images that show them.

pub mod args;
pub mod codec;
pub mod container;
pub mod dislodge;
pub mod download;
pub mod embed;
pub mod embedsource;
pub mod error;
pub mod etcher;
pub mod raster;
pub mod render;
pub mod settings;
pub mod text;
pub mod timer;
pub mod ui;
pub mod youtube_dl;
