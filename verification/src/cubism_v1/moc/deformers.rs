//! Deformers.

use crate::cubism_v1::moc::affines::Affine;
use crate::cubism_v1::moc::objects::{
    decode_curved_surface_deformer, decode_rotation_deformer, parsed_curved_surface_deformer,
    parsed_rotation_deformer,
};
use crate::cubism_v1::moc::pivots::{Pivot, PivotView};
use crate::errors::L2Error;
use crate::reader::MocReader;
use crate::views::views;
use vstd::prelude::*;

verus! {

/// The kinds of deformer.
#[derive(Debug, Clone, Copy, PartialEq, Eq, Structural)]
pub enum DeformerType {
    Dummy,
    Rotation,
    CurvedSurface,
}

impl DeformerType {
    /// The number of a kind.
    pub open spec fn spec_code(self) -> u8 {
        match self {
            DeformerType::Dummy => 0,
            DeformerType::Rotation => 1,
            DeformerType::CurvedSurface => 2,
        }
    }

    /// The number of this kind.
    pub fn code(&self) -> (code: u8)
        ensures
            code == self.spec_code(),
    {
        match self {
            DeformerType::Dummy => 0,
            DeformerType::Rotation => 1,
            DeformerType::CurvedSurface => 2,
        }
    }
}

/// A deformer that turns what it holds about a point. The opacities are the
/// bit patterns of 32-bit floats; they are in the file from version 10 on,
/// and there are none before.
#[derive(Debug, PartialEq)]
pub struct RotationDeformer {
    pub id: String,
    pub target_id: String,
    pub pivots: Vec<Pivot>,
    pub pivots_opacity: Vec<u32>,
    pub affine: Vec<Affine>,
}

/// What a [`RotationDeformer`] holds.
pub struct RotationDeformerView {
    pub id: Seq<char>,
    pub target_id: Seq<char>,
    pub pivots: Seq<PivotView>,
    pub pivots_opacity: Seq<u32>,
    pub affine: Seq<Affine>,
}

impl View for RotationDeformer {
    type V = RotationDeformerView;

    open spec fn view(&self) -> RotationDeformerView {
        RotationDeformerView {
            id: self.id@,
            target_id: self.target_id@,
            pivots: views(self.pivots@),
            pivots_opacity: self.pivots_opacity@,
            affine: self.affine@,
        }
    }
}

/// A deformer that bends what it holds over a grid. The opacities are the
/// bit patterns of 32-bit floats; they are in the file from version 10 on,
/// and there are none before.
#[derive(Debug, PartialEq)]
pub struct CurvedSurfaceDeformer {
    pub id: String,
    pub target_id: String,
    pub row: i32,
    pub column: i32,
    pub pivots: Vec<Pivot>,
    pub opacities: Vec<u32>,
}

/// What a [`CurvedSurfaceDeformer`] holds.
pub struct CurvedSurfaceDeformerView {
    pub id: Seq<char>,
    pub target_id: Seq<char>,
    pub row: i32,
    pub column: i32,
    pub pivots: Seq<PivotView>,
    pub opacities: Seq<u32>,
}

impl View for CurvedSurfaceDeformer {
    type V = CurvedSurfaceDeformerView;

    open spec fn view(&self) -> CurvedSurfaceDeformerView {
        CurvedSurfaceDeformerView {
            id: self.id@,
            target_id: self.target_id@,
            row: self.row,
            column: self.column,
            pivots: views(self.pivots@),
            opacities: self.opacities@,
        }
    }
}

impl RotationDeformer {
    /// Reads a rotation deformer at the cursor.
    pub fn read_object(reader: &mut MocReader) -> (r: Result<RotationDeformer, L2Error>)
        requires
            old(reader).wf(),
        ensures
            old(reader).reads_in_view(
                final(reader),
                r,
                parsed_rotation_deformer(
                    old(reader).bytes(),
                    old(reader).position(),
                    old(reader).file_version(),
                ),
            ),
    {
        let decoded = decode_rotation_deformer(reader.input(), reader.offset(), reader.version());
        reader.accept(decoded)
    }
}

impl CurvedSurfaceDeformer {
    /// Reads a curved surface deformer at the cursor.
    pub fn read_object(reader: &mut MocReader) -> (r: Result<CurvedSurfaceDeformer, L2Error>)
        requires
            old(reader).wf(),
        ensures
            old(reader).reads_in_view(
                final(reader),
                r,
                parsed_curved_surface_deformer(
                    old(reader).bytes(),
                    old(reader).position(),
                    old(reader).file_version(),
                ),
            ),
    {
        let decoded = decode_curved_surface_deformer(
            reader.input(),
            reader.offset(),
            reader.version(),
        );
        reader.accept(decoded)
    }
}

} // verus!
