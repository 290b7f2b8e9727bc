//! The format generations of both container families.

use vstd::prelude::*;

verus! {

/// A generation of the `moc` or `moc3` format, oldest first.
#[allow(non_camel_case_types)]
#[derive(Debug, Clone, Copy, PartialEq, Eq, Structural, PartialOrd, Ord, Hash)]
pub enum MocVersion {
    /// `moc 0x6`, initial version
    V2_6_INTIAL,
    /// `moc 0x7`, opacity support
    V2_7_OPACITY,
    /// `moc 0x8`, texture option support
    V2_8_TEX_OPTION,
    /// `moc 0x9`, avatar parts support
    V2_9_AVATAR_PARTS,
    /// `moc 0xA`, SDK 2.0
    V2_10_SDK2,
    /// `moc 0xB`, SDK 2.1
    V2_11_SDK2_1,
    /// `moc3 0x1`
    V30,
    /// `moc3 0x2`
    V33,
    /// `moc3 0x3`
    V40,
    /// `moc3 0x4`
    V42,
    /// `moc3 0x5`
    V50,
}

impl MocVersion {
    /// The place of a generation in the order of release, from 0.
    pub open spec fn spec_rank(self) -> int {
        match self {
            MocVersion::V2_6_INTIAL => 0,
            MocVersion::V2_7_OPACITY => 1,
            MocVersion::V2_8_TEX_OPTION => 2,
            MocVersion::V2_9_AVATAR_PARTS => 3,
            MocVersion::V2_10_SDK2 => 4,
            MocVersion::V2_11_SDK2_1 => 5,
            MocVersion::V30 => 6,
            MocVersion::V33 => 7,
            MocVersion::V40 => 8,
            MocVersion::V42 => 9,
            MocVersion::V50 => 10,
        }
    }

    /// The generation that a `moc` header's version byte names, if any.
    pub open spec fn of_moc_byte(byte: u8) -> Option<MocVersion> {
        if byte == 6 {
            Some(MocVersion::V2_6_INTIAL)
        } else if byte == 7 {
            Some(MocVersion::V2_7_OPACITY)
        } else if byte == 8 {
            Some(MocVersion::V2_8_TEX_OPTION)
        } else if byte == 9 {
            Some(MocVersion::V2_9_AVATAR_PARTS)
        } else if byte == 10 {
            Some(MocVersion::V2_10_SDK2)
        } else if byte == 11 {
            Some(MocVersion::V2_11_SDK2_1)
        } else {
            None
        }
    }

    /// The generation that a `moc3` header's version byte names, if any.
    pub open spec fn of_moc3_byte(byte: u8) -> Option<MocVersion> {
        if byte == 1 {
            Some(MocVersion::V30)
        } else if byte == 2 {
            Some(MocVersion::V33)
        } else if byte == 3 {
            Some(MocVersion::V40)
        } else if byte == 4 {
            Some(MocVersion::V42)
        } else if byte == 5 {
            Some(MocVersion::V50)
        } else {
            None
        }
    }

    /// The place of this generation in the order of release, from 0.
    pub fn rank(&self) -> (r: u8)
        ensures
            r == self.spec_rank(),
    {
        match self {
            MocVersion::V2_6_INTIAL => 0,
            MocVersion::V2_7_OPACITY => 1,
            MocVersion::V2_8_TEX_OPTION => 2,
            MocVersion::V2_9_AVATAR_PARTS => 3,
            MocVersion::V2_10_SDK2 => 4,
            MocVersion::V2_11_SDK2_1 => 5,
            MocVersion::V30 => 6,
            MocVersion::V33 => 7,
            MocVersion::V40 => 8,
            MocVersion::V42 => 9,
            MocVersion::V50 => 10,
        }
    }

    /// Whether this generation is `other` or a later one.
    pub fn at_least(&self, other: MocVersion) -> (r: bool)
        ensures
            r == (self.spec_rank() >= other.spec_rank()),
    {
        self.rank() >= other.rank()
    }

    /// Reads the version byte of a `moc` header.
    pub fn from_moc_byte(byte: u8) -> (r: Option<MocVersion>)
        ensures
            r == Self::of_moc_byte(byte),
    {
        match byte {
            6 => Some(MocVersion::V2_6_INTIAL),
            7 => Some(MocVersion::V2_7_OPACITY),
            8 => Some(MocVersion::V2_8_TEX_OPTION),
            9 => Some(MocVersion::V2_9_AVATAR_PARTS),
            10 => Some(MocVersion::V2_10_SDK2),
            11 => Some(MocVersion::V2_11_SDK2_1),
            _ => None,
        }
    }

    /// Reads the version byte of a `moc3` header.
    pub fn from_moc3_byte(byte: u8) -> (r: Option<MocVersion>)
        ensures
            r == Self::of_moc3_byte(byte),
    {
        match byte {
            1 => Some(MocVersion::V30),
            2 => Some(MocVersion::V33),
            3 => Some(MocVersion::V40),
            4 => Some(MocVersion::V42),
            5 => Some(MocVersion::V50),
            _ => None,
        }
    }
}

} // verus!
