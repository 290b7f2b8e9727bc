//! A model file of either format, told apart by its first bytes.

use crate::cubism_v1::moc::{parsed_moc, Moc, MocView};
use crate::cubism_v3::moc3::{magic, moc3_tables, Moc3, Moc3Tables};
use crate::errors::L2Error;
use vstd::prelude::*;

verus! {

/// A decoded model file.
#[derive(Debug)]
pub enum ModelFile {
    /// A file of the tagged node format.
    Moc(Moc),
    /// A file of the format of tables and columns.
    Moc3(Moc3),
}

/// The bytes begin with the magic `MOC3`.
pub open spec fn begins_as_moc3(bytes: Seq<u8>) -> bool {
    bytes.len() >= 4 && bytes.take(4) == magic()
}

impl ModelFile {
    /// Decodes a model file: as a `moc3` file where it begins with `MOC3`,
    /// and as a `moc` file where it does not. A file that begins as neither
    /// fails as a `moc` file without its magic does.
    pub fn decode(bytes: Vec<u8>) -> (r: Result<ModelFile, L2Error>)
        ensures
            match r {
                Ok(ModelFile::Moc3(file)) => begins_as_moc3(bytes@) && file.bytes() == bytes@
                    && file.wf(),
                Ok(ModelFile::Moc(file)) => !begins_as_moc3(bytes@) && parsed_moc(bytes@) == Ok::<
                    MocView,
                    L2Error,
                >(file@),
                Err(e) => if begins_as_moc3(bytes@) {
                    moc3_tables(bytes@) == Err::<Moc3Tables, L2Error>(e)
                } else {
                    parsed_moc(bytes@) == Err::<MocView, L2Error>(e)
                },
            },
    {
        if Self::is_moc3(bytes.as_slice()) {
            Ok(ModelFile::Moc3(Moc3::new(bytes)?))
        } else {
            Ok(ModelFile::Moc(Moc::new(bytes.as_slice())?))
        }
    }

    /// Whether a file begins with the magic `MOC3`.
    pub fn is_moc3(bytes: &[u8]) -> (r: bool)
        ensures
            r == begins_as_moc3(bytes@),
    {
        Moc3::has_magic(bytes)
    }
}

} // verus!
