//! A terminal text editor core whose behaviour is specified and proved with Verus.
pub mod engine;
pub mod protocol;
pub mod text;
