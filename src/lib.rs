//! Digests of file contents and verification of files against a checksum
//! manifest of `<digest>  <filename>` lines.
pub mod cli;
pub mod digest;
pub mod guarantees;
pub mod manifest;
pub mod verification;
