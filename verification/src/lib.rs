//! Decoder for the header region of a Windows PE64 (Portable Executable)
//! image: the COFF file header, the 64-bit optional header with its
//! data-directory table, and the section table with each section's raw bytes.
//!
//! The decoder is a pure function of the input buffer.  It either returns a
//! fully decoded [`file::File`] or a positioned, context-chained
//! [`error::DecodeError`]; it never panics on malformed input.

pub mod error;
pub mod file;
pub mod header;
pub mod sections;
pub mod util;
