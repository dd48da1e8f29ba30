//! Identification of the authoring-tool release behind an executable image.
//!
//! An image may have been run through a protector that moves the metadata
//! header and masks it. This crate holds the part that decides: a byte buffer
//! with a cursor ([`ByteImage`]), the scan that finds a moved header again
//! ([`locate_header`]), and the dispatcher ([`begin`], [`advance`]) that tries
//! the detection branches in a fixed order and commits to the first that
//! matches. The unpacking, probing, decrypting and validating transforms are
//! not here: the dispatcher names the one it needs as a [`Request`] and takes
//! the answer as a [`Reply`].

pub mod dispatch;
pub mod error;
pub mod guarantees;
pub mod image;
pub mod locator;

pub use dispatch::{
    advance, begin, CompressionHint, Diagnostic, GameVersion, ProtectionSettings, Reply,
    Request, Stage, Step, XorMethod,
};
pub use error::ReaderError;
pub use image::{ByteImage, ImageState};
pub use locator::{locate_header, masked_combine, MAGIC};
