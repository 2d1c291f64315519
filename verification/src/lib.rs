//! Transplanting an Authenticode signature between Portable Executable images.
//!
//! The library locates the certificate table of a signed PE image, extracts
//! the signature blob it points at, and implants such a blob into another PE
//! image by patching the certificate-table data-directory entry and appending
//! the blob at end of file.

pub mod le;
pub mod layout;
pub mod transplant;
pub mod sniff;
