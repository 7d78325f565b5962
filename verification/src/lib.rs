//! Builder for a fixed-layout cartridge ROM image: a header, a zero-filled
//! body, a caller-supplied payload, zero padding up to a fixed offset, and a
//! fixed four-byte trailer. The builder produces the image bytes in memory;
//! persisting them is left to the caller.

pub mod headers;
pub mod image;
pub mod layout;
