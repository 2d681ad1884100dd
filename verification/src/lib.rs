//! Decoder for the fixed-size leading header of ELF object files.
//!
//! The core is a pure function from a byte buffer to a typed record of
//! header fields: the signature is checked, every field is read at its
//! declared offset and width, multi-byte integers are reconstructed in
//! the byte order the header itself declares, and enumerated values are
//! resolved to symbolic labels through a static catalog. A small report
//! builder arranges the decoded records of a batch of files into rows
//! for a renderer; rendering itself, and all file I/O, live outside the
//! library.

pub mod bytes;
pub mod catalog;
pub mod decode;
pub mod encode;
pub mod header;
pub mod laws;
pub mod report;
