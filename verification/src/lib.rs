//! Composition of a host summary: tones, uptime text, the labelled fact block,
//! the colour swatch and the side-by-side pairing with an ASCII-art logo, which
//! the `prettytable` crate lays out.
//!
//! The library works on plain values. Whoever gathers the facts (system calls,
//! package tools, the logo file) hands them in and prints what comes back.

pub mod base;
pub mod color;
pub mod cpu;
pub mod fact;
pub mod info;
pub mod lines;
pub mod logo;
pub mod memory;
pub mod pkgs;
pub mod report;
pub mod swatch;
pub mod template;
pub mod text;
pub mod user;
pub mod width;
