//! The `moc3` file as a whole: its header, its tables, and the enumerators of
//! its entity categories.
//!
//! The file begins with the magic `MOC3` and a version byte that names one of
//! five generations. The number at offset `0x40` is the offset of the table
//! of element counts. The offsets of the columns lie at fixed places of the
//! preamble. The columns of generation 3.0 lie at the same place in every
//! generation. Later generations append columns to a category, in records of
//! their own behind a region of padding; generation 5.0 widens that region by
//! 128 bytes, so that all the appended records lie 128 bytes further on.

pub mod cells;
pub mod element_count;
pub mod meshes;
pub mod params;
pub mod parts;

pub use self::element_count::ElementCountTable;
pub use self::meshes::{ArtMesh, ArtMeshOffsets, ArtMeshes, DrawableFlags};
pub use self::params::{Parameter, Parameters, ParametersOffsets};
pub use self::parts::{Part, PartOffsets, Parts};

use self::cells::{
    flag_cell, i32_cell, name_cell, read_flag_cell, read_i32_cell, read_name_cell, read_u32_cell,
    record_fits, record_shortfall, start_record, u32_cell, word,
};
use self::element_count::count_table;
use self::meshes::art_mesh_offsets;
use self::params::parameter_offsets;
use self::parts::part_offsets;
use crate::errors::L2Error;
use crate::helpers::MocVersion;
use crate::reader::le_u32;
use vstd::prelude::*;

verus! {

/// By how far generation 5.0 moves the records of the appended columns.
pub const WIDENED_BY: u32 = 128;

/// Where the offset of the table of counts lies.
pub const COUNT_POINTER_AT: usize = 0x40;

/// The magic bytes, `MOC3`.
pub open spec fn magic() -> Seq<u8> {
    seq![0x4Du8, 0x4Fu8, 0x43u8, 0x33u8]
}

/// Where a record of appended columns lies in a file of the given
/// generation, `base` being its place before generation 5.0.
pub open spec fn appended_at(base: int, version: MocVersion) -> int {
    if version == MocVersion::V50 {
        base + 128
    } else {
        base
    }
}

/// The generation that the header names. The magic is looked at first, then
/// the version byte.
pub open spec fn moc3_version(bytes: Seq<u8>) -> Result<MocVersion, L2Error> {
    if bytes.len() < 5 {
        Err(L2Error::OutOfBounds { have: bytes.len() as u64, need: 5 })
    } else if bytes.take(4) != magic() {
        Err(L2Error::InvalidMagic)
    } else {
        match MocVersion::of_moc3_byte(bytes[4]) {
            Some(version) => Ok(version),
            None => Err(L2Error::UnsupportedVersion { byte: bytes[4] }),
        }
    }
}

/// What the preamble of a file says: its generation, its counts, and the
/// offsets of the columns of each category.
#[derive(Copy, Clone, Debug, PartialEq, Eq, Structural)]
pub struct Moc3Tables {
    pub version: MocVersion,
    pub counts: ElementCountTable,
    pub parts: PartOffsets,
    pub params: ParametersOffsets,
    pub meshes: ArtMeshOffsets,
}

/// The tables of a file. They are read in the order: header, counts, part
/// columns, parameter columns, art mesh columns; the first that fails decides
/// the failure.
pub open spec fn moc3_tables(bytes: Seq<u8>) -> Result<Moc3Tables, L2Error> {
    match moc3_version(bytes) {
        Err(e) => Err(e),
        Ok(version) => {
            if !record_fits(bytes, 0x40, 1) {
                Err(record_shortfall(bytes, 0x40, 1))
            } else {
                let counts = count_table(bytes, le_u32(bytes, 0x40) as int);
                let parts = part_offsets(bytes);
                let params = parameter_offsets(bytes, version);
                let meshes = art_mesh_offsets(bytes, version);
                if counts is Err {
                    Err(counts->Err_0)
                } else if parts is Err {
                    Err(parts->Err_0)
                } else if params is Err {
                    Err(params->Err_0)
                } else if meshes is Err {
                    Err(meshes->Err_0)
                } else {
                    Ok(
                        Moc3Tables {
                            version,
                            counts: counts->Ok_0,
                            parts: parts->Ok_0,
                            params: params->Ok_0,
                            meshes: meshes->Ok_0,
                        },
                    )
                }
            }
        },
    }
}

/// By how many bytes the records of appended columns are moved in a file of
/// the given generation.
pub fn widening(version: MocVersion) -> (shift: u32)
    ensures
        forall|base: int| appended_at(base, version) == base + shift,
        shift <= 128,
{
    match version {
        MocVersion::V50 => WIDENED_BY,
        _ => 0,
    }
}

/// A `moc3` file in memory, with its tables read.
#[derive(Debug)]
pub struct Moc3 {
    /// The whole file.
    m: Vec<u8>,
    /// What its preamble says.
    tables: Moc3Tables,
}

impl Moc3 {
    /// The bytes of the file.
    pub closed spec fn bytes(&self) -> Seq<u8> {
        self.m@
    }

    /// What the preamble of the file says.
    pub closed spec fn tables(&self) -> Moc3Tables {
        self.tables
    }

    /// The counts of the file.
    pub open spec fn counts(&self) -> ElementCountTable {
        self.tables().counts
    }

    /// The tables are those of the bytes.
    pub open spec fn wf(&self) -> bool {
        moc3_tables(self.bytes()) == Ok::<Moc3Tables, L2Error>(self.tables())
    }

    /// Whether a file begins with the magic.
    pub fn has_magic(moc3: &[u8]) -> (r: bool)
        ensures
            r == (moc3@.len() >= 4 && moc3@.take(4) == magic()),
    {
        if moc3.len() < 4 {
            return false;
        }
        if moc3[0] != 0x4D || moc3[1] != 0x4F || moc3[2] != 0x43 || moc3[3] != 0x33 {
            assert(moc3@.take(4) != magic()) by {
                if moc3@.take(4) == magic() {
                    assert(moc3@.take(4)[0] == 0x4D && moc3@.take(4)[1] == 0x4F && moc3@.take(
                        4,
                    )[2] == 0x43 && moc3@.take(4)[3] == 0x33);
                }
            }
            return false;
        }
        assert(moc3@.take(4) =~= magic());
        true
    }

    /// Reads the generation out of a header.
    pub fn read_version(moc3: &[u8]) -> (r: Result<MocVersion, L2Error>)
        ensures
            r == moc3_version(moc3@),
    {
        if moc3.len() < 5 {
            return Err(L2Error::OutOfBounds { have: moc3.len() as u64, need: 5 });
        }
        if !Self::has_magic(moc3) {
            return Err(L2Error::InvalidMagic);
        }
        match MocVersion::from_moc3_byte(moc3[4]) {
            Some(version) => Ok(version),
            None => Err(L2Error::UnsupportedVersion { byte: moc3[4] }),
        }
    }

    /// Takes a file into memory and reads its tables. Nothing of the columns
    /// is read yet.
    pub fn new(moc3: Vec<u8>) -> (r: Result<Moc3, L2Error>)
        ensures
            match r {
                Ok(file) => file.bytes() == moc3@ && file.wf(),
                Err(e) => moc3_tables(moc3@) == Err::<Moc3Tables, L2Error>(e),
            },
    {
        let bytes = moc3.as_slice();
        let version = Self::read_version(bytes)?;
        let pointer_at = start_record(bytes, COUNT_POINTER_AT as u64, 1)?;
        let counts = ElementCountTable::read(bytes, word(bytes, pointer_at))?;
        let parts = PartOffsets::read(bytes)?;
        let params = ParametersOffsets::read(bytes, version)?;
        let meshes = ArtMeshOffsets::read(bytes, version)?;
        Ok(Moc3 { m: moc3, tables: Moc3Tables { version, counts, parts, params, meshes } })
    }

    /// The magic of the file, which is always `MOC3`.
    pub fn magic_head(&self) -> (head: &str)
        ensures
            head@ == "MOC3"@,
    {
        "MOC3"
    }

    /// The generation of the file.
    pub fn version(&self) -> (version: MocVersion)
        ensures
            version == self.tables().version,
    {
        self.tables.version
    }

    /// The table of counts.
    pub fn element_count(&self) -> (counts: ElementCountTable)
        ensures
            counts == self.counts(),
    {
        self.tables.counts
    }

    /// The bytes of the file.
    pub fn buffer(&self) -> (bytes: &[u8])
        ensures
            bytes@ == self.bytes(),
    {
        self.m.as_slice()
    }

    /// The offsets of the part columns.
    pub fn part_table(&self) -> (offsets: PartOffsets)
        ensures
            offsets == self.tables().parts,
    {
        self.tables.parts
    }

    /// The offsets of the parameter columns.
    pub fn parameter_table(&self) -> (offsets: ParametersOffsets)
        ensures
            offsets == self.tables().params,
    {
        self.tables.params
    }

    /// The offsets of the art mesh columns.
    pub fn art_mesh_table(&self) -> (offsets: ArtMeshOffsets)
        ensures
            offsets == self.tables().meshes,
    {
        self.tables.meshes
    }

    /// Cell `index` of the column of 32-bit numbers at offset `address`.
    pub fn read(&self, address: u32, index: u32) -> (r: Result<u32, L2Error>)
        ensures
            r == u32_cell(self.bytes(), address, index),
    {
        read_u32_cell(self.m.as_slice(), address, index)
    }

    /// Cell `index` of the column of signed numbers at offset `address`.
    pub fn read_i32(&self, address: u32, index: u32) -> (r: Result<i32, L2Error>)
        ensures
            r == i32_cell(self.bytes(), address, index),
    {
        read_i32_cell(self.m.as_slice(), address, index)
    }

    /// Cell `index` of the column of flags at offset `address`.
    pub fn read_b32(&self, address: u32, index: u32) -> (r: Result<bool, L2Error>)
        ensures
            r == flag_cell(self.bytes(), address, index),
    {
        read_flag_cell(self.m.as_slice(), address, index)
    }

    /// Cell `index` of the column of names at offset `address`.
    pub fn read_cstr(&self, address: u32, index: u32) -> (r: Result<&str, L2Error>)
        ensures
            match r {
                Ok(name) => name_cell(self.bytes(), address, index) == Ok::<Seq<char>, L2Error>(
                    name@,
                ),
                Err(e) => name_cell(self.bytes(), address, index) == Err::<Seq<char>, L2Error>(e),
            },
    {
        read_name_cell(self.m.as_slice(), address, index)
    }

    /// An enumerator of the parts, at the first.
    pub fn parts(&self) -> (parts: Parts<'_>)
        ensures
            parts.source() == *self,
            parts.cursor() == 0,
    {
        Parts::over(self)
    }

    /// An enumerator of the parameters, at the first.
    pub fn get_parameters(&self) -> (parameters: Parameters<'_>)
        ensures
            parameters.source() == *self,
            parameters.cursor() == 0,
    {
        Parameters::over(self)
    }

    /// An enumerator of the art meshes, at the first.
    pub fn art_meshes(&self) -> (meshes: ArtMeshes<'_>)
        ensures
            meshes.source() == *self,
            meshes.cursor() == 0,
    {
        ArtMeshes::over(self)
    }
}

/// A file with the magic whose version byte names no generation is refused
/// for that byte, whatever else it holds. The bytes 1 to 5 name the
/// generations 3.0, 3.3, 4.0, 4.2 and 5.0, and a file whose tables can be
/// read is of the generation that its byte names.
pub proof fn lemma_moc3_version_gate(bytes: Seq<u8>)
    requires
        bytes.len() >= 5,
        bytes.take(4) == magic(),
    ensures
        !(1 <= bytes[4] <= 5) ==> moc3_tables(bytes) == Err::<Moc3Tables, L2Error>(
            L2Error::UnsupportedVersion { byte: bytes[4] },
        ),
        bytes[4] == 1 ==> moc3_version(bytes) == Ok::<MocVersion, L2Error>(MocVersion::V30),
        bytes[4] == 2 ==> moc3_version(bytes) == Ok::<MocVersion, L2Error>(MocVersion::V33),
        bytes[4] == 3 ==> moc3_version(bytes) == Ok::<MocVersion, L2Error>(MocVersion::V40),
        bytes[4] == 4 ==> moc3_version(bytes) == Ok::<MocVersion, L2Error>(MocVersion::V42),
        bytes[4] == 5 ==> moc3_version(bytes) == Ok::<MocVersion, L2Error>(MocVersion::V50),
        moc3_tables(bytes) matches Ok(tables) ==> moc3_version(bytes) == Ok::<
            MocVersion,
            L2Error,
        >(tables.version),
{
}

} // verus!
