//! A level-based threshold check engine for monitoring plugins: a measured
//! value is rated against optional warning and critical bounds, and many such
//! outcomes are folded into one report whose worst severity wins.

pub mod severity;
pub mod text;
pub mod measure;
pub mod uom;
pub mod levels;
pub mod collection;
pub mod fetcher;
pub mod laws;
