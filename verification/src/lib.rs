//! Decoders for the `moc` and `moc3` model containers, and the stream cipher
//! and entry names of the LPK archive that wraps them.
//!
//! - [`reader`] holds the cursor and the primitive values of both formats,
//!   [`varint`] the variable-length integers, [`text`] the decoding of text.
//! - [`cubism_v1`] decodes `moc` files, a stream of tagged nodes.
//! - [`cubism_v3`] decodes `moc3` files, tables of offsets over columns.
//! - [`model`] tells the two formats apart.
//! - [`cipher`] derives keys and decrypts.
//! - [`lpk`] holds what an extraction of an archive decides.
//!
//! Every executable function states what it returns over a definition of
//! the format in spec mode, and is proved to meet it. The few functions
//! whose contracts are taken on trust call code outside this crate, and say
//! so. Nothing here reads a file: the decoders take bytes, and the archive
//! takes texts and answers.

pub mod cipher;
pub mod cubism_v1;
pub mod cubism_v3;
pub mod errors;
pub mod helpers;
pub mod lpk;
pub mod model;
pub mod reader;
pub mod strings;
pub mod text;
pub mod varint;
pub mod views;

pub use crate::errors::L2Error;
