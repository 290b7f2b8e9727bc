//! The tagged node format of `moc` files.
//!
//! A node begins with a variable-length integer, its tag, which says what
//! shape the node has; the fields of that shape follow. Some shapes hold
//! further nodes. Several shapes grew fields in later versions of the
//! format: a file of an earlier version does not hold them, and they take a
//! fixed value instead. The version belongs to the file, so every decoder of
//! a node takes it.

pub mod affines;
pub mod deformers;
pub mod objects;
pub mod params;
pub mod parts;
pub mod pivots;

pub use self::affines::Affine;
pub use self::deformers::{CurvedSurfaceDeformer, DeformerType, RotationDeformer};
pub use self::params::{ParamList, Parameter};
pub use self::parts::{Part, PartType};
pub use self::pivots::{Pivot, PivotManager};
pub use crate::reader::MocReader;

use self::deformers::{CurvedSurfaceDeformerView, RotationDeformerView};
use self::objects::{decode_object, decode_parameters, parsed_object, parsed_parameters};
use self::params::ParameterView;
use self::parts::{parts_of, PartView};
use self::pivots::{PivotManagerView, PivotView};
use crate::errors::L2Error;
use crate::helpers::MocVersion;
use crate::reader::{agrees, decode_i32, parsed_i32, Parsed};
use crate::views::views;
use vstd::prelude::*;

verus! {

/// The tag of the null node.
pub const TAG_NULL: u64 = 0;

/// The tag of a node that holds one byte.
pub const TAG_BYTE: u64 = 3;

/// The tag of an array of nodes.
pub const TAG_OBJECT_ARRAY: u64 = 15;

/// The tag of a curved surface deformer.
pub const TAG_CURVED_SURFACE_DEFORMER: u64 = 65;

/// The tag of a pivot manager.
pub const TAG_PIVOT_MANAGER: u64 = 66;

/// The tag of a pivot.
pub const TAG_PIVOT: u64 = 67;

/// The tag of a rotation deformer.
pub const TAG_ROTATION_DEFORMER: u64 = 68;

/// The tag of an affine transform.
pub const TAG_AFFINE: u64 = 69;

/// The tag of a parameter.
pub const TAG_PARAMETER: u64 = 131;

/// The tag of a part.
pub const TAG_PART: u64 = 133;

/// The first version whose files hold the later fields of a node.
pub const LATER_FIELDS_SINCE: u8 = 10;

/// A node of the tagged format. A node owns the nodes it holds, so a decoded
/// file is a tree.
#[derive(Debug, PartialEq)]
pub enum ObjectData {
    /// Nothing.
    Null,
    /// One byte.
    Byte(u8),
    /// Nodes in a row.
    ObjectArray(Vec<ObjectData>),
    CurvedSurfaceDeformer(CurvedSurfaceDeformer),
    PivotManager(PivotManager),
    Pivot(Pivot),
    RotationDeformer(RotationDeformer),
    Affine(Affine),
    Parameter(Parameter),
    Part(Part),
    /// A node of a shape that is not known. No decoder gives this node: a
    /// tag that names no shape ends the decoding.
    Unknown { type_id: u64 },
}

/// What an [`ObjectData`] holds.
pub enum ObjectView {
    Null,
    Byte(u8),
    ObjectArray(Seq<ObjectView>),
    CurvedSurfaceDeformer(CurvedSurfaceDeformerView),
    PivotManager(PivotManagerView),
    Pivot(PivotView),
    RotationDeformer(RotationDeformerView),
    Affine(Affine),
    Parameter(ParameterView),
    Part(PartView),
    Unknown { type_id: u64 },
}

/// The views of the nodes of a list.
pub open spec fn nodes_view(nodes: Seq<ObjectData>) -> Seq<ObjectView>
    decreases nodes,
{
    Seq::new(
        nodes.len(),
        |i: int|
            if 0 <= i < nodes.len() {
                nodes[i]@
            } else {
                ObjectView::Null
            },
    )
}

impl View for ObjectData {
    type V = ObjectView;

    open spec fn view(&self) -> ObjectView
        decreases self,
    {
        match self {
            ObjectData::Null => ObjectView::Null,
            ObjectData::Byte(byte) => ObjectView::Byte(*byte),
            ObjectData::ObjectArray(nodes) => ObjectView::ObjectArray(nodes_view(nodes@)),
            ObjectData::CurvedSurfaceDeformer(deformer) => ObjectView::CurvedSurfaceDeformer(
                deformer@,
            ),
            ObjectData::PivotManager(manager) => ObjectView::PivotManager(manager@),
            ObjectData::Pivot(pivot) => ObjectView::Pivot(pivot@),
            ObjectData::RotationDeformer(deformer) => ObjectView::RotationDeformer(deformer@),
            ObjectData::Affine(affine) => ObjectView::Affine(*affine),
            ObjectData::Parameter(parameter) => ObjectView::Parameter(parameter@),
            ObjectData::Part(part) => ObjectView::Part(part@),
            ObjectData::Unknown { type_id } => ObjectView::Unknown { type_id: *type_id },
        }
    }
}

/// The length of the header: the magic, the version, and five bytes that
/// are passed over.
pub const HEADER_LEN: usize = 9;

/// The magic bytes, `moc`.
pub open spec fn magic() -> Seq<u8> {
    seq![0x6Du8, 0x6Fu8, 0x63u8]
}

/// A decoded `moc` file.
#[derive(Debug, PartialEq)]
pub struct Moc {
    version: u8,
    params: Vec<Parameter>,
    parts: Vec<Part>,
    canvas_width: i32,
    canvas_height: i32,
}

/// What a [`Moc`] holds.
pub struct MocView {
    pub version: u8,
    pub params: Seq<ParameterView>,
    pub parts: Seq<PartView>,
    pub canvas_width: i32,
    pub canvas_height: i32,
}

impl View for Moc {
    type V = MocView;

    closed spec fn view(&self) -> MocView {
        MocView {
            version: self.version,
            params: views(self.params@),
            parts: views(self.parts@),
            canvas_width: self.canvas_width,
            canvas_height: self.canvas_height,
        }
    }
}

/// The size of the canvas: a width and a height that files have from version
/// 10 on, and that are both 0 before.
pub open spec fn parsed_canvas(bytes: Seq<u8>, pos: int, version: u8) -> Parsed<(i32, i32)> {
    if version >= LATER_FIELDS_SINCE {
        let width = parsed_i32(bytes, pos);
        let height = parsed_i32(bytes, pos + 4);
        if width is Err {
            Err(width->Err_0)
        } else if height is Err {
            Err(height->Err_0)
        } else {
            Ok(((width->Ok_0.0, height->Ok_0.0), 8))
        }
    } else {
        Ok(((0, 0), 0))
    }
}

/// What follows the header of a file of the given version: the list of
/// parameters, a node of which the parts are taken, and the canvas. Bytes
/// behind the canvas are not looked at.
pub open spec fn parsed_body(bytes: Seq<u8>, version: u8) -> Result<MocView, L2Error> {
    match parsed_parameters(bytes, HEADER_LEN as int) {
        Err(e) => Err(e),
        Ok((params, params_len)) => match parsed_object(
            bytes,
            HEADER_LEN + params_len,
            version,
        ) {
            Err(e) => Err(e),
            Ok((node, node_len)) => match parsed_canvas(
                bytes,
                HEADER_LEN + params_len + node_len,
                version,
            ) {
                Err(e) => Err(e),
                Ok((canvas, _)) => Ok(
                    MocView {
                        version,
                        params,
                        parts: parts_of(node),
                        canvas_width: canvas.0,
                        canvas_height: canvas.1,
                    },
                ),
            },
        },
    }
}

/// A whole file: the header of nine bytes, which must begin with the magic
/// and name one of the six versions that are known, then the body.
pub open spec fn parsed_moc(bytes: Seq<u8>) -> Result<MocView, L2Error> {
    if bytes.len() < HEADER_LEN {
        Err(L2Error::OutOfBounds { have: bytes.len() as u64, need: HEADER_LEN as u64 })
    } else if bytes.take(3) != magic() {
        Err(L2Error::InvalidMagic)
    } else if MocVersion::of_moc_byte(bytes[3]) is None {
        Err(L2Error::UnsupportedVersion { byte: bytes[3] })
    } else {
        parsed_body(bytes, bytes[3])
    }
}

/// Reads the size of the canvas at `pos`.
pub fn decode_canvas(bytes: &[u8], pos: usize, version: u8) -> (r: Result<
    ((i32, i32), usize),
    L2Error,
>)
    requires
        pos <= bytes.len(),
    ensures
        agrees(r, bytes@, pos, parsed_canvas(bytes@, pos as int, version)),
{
    if version >= LATER_FIELDS_SINCE {
        let (width, at) = decode_i32(bytes, pos)?;
        let (height, at) = decode_i32(bytes, at)?;
        Ok(((width, height), at))
    } else {
        Ok(((0, 0), pos))
    }
}

impl Moc {
    /// Decodes a whole file.
    pub fn new(data: &[u8]) -> (r: Result<Moc, L2Error>)
        ensures
            match r {
                Ok(moc) => parsed_moc(data@) == Ok::<MocView, L2Error>(moc@),
                Err(e) => parsed_moc(data@) == Err::<MocView, L2Error>(e),
            },
    {
        if data.len() < HEADER_LEN {
            return Err(L2Error::OutOfBounds { have: data.len() as u64, need: HEADER_LEN as u64 });
        }
        if data[0] != 0x6D || data[1] != 0x6F || data[2] != 0x63 {
            assert(data@.take(3) != magic()) by {
                if data@.take(3) == magic() {
                    assert(data@.take(3)[0] == 0x6D && data@.take(3)[1] == 0x6F && data@.take(
                        3,
                    )[2] == 0x63);
                }
            }
            return Err(L2Error::InvalidMagic);
        }
        assert(data@.take(3) =~= magic());
        let version = data[3];
        if MocVersion::from_moc_byte(version).is_none() {
            return Err(L2Error::UnsupportedVersion { byte: version });
        }
        let (params, at) = decode_parameters(data, HEADER_LEN)?;
        let (node, at) = decode_object(data, at, version)?;
        let ((canvas_width, canvas_height), _) = decode_canvas(data, at, version)?;
        Ok(Moc { version, params, parts: node.as_parts(), canvas_width, canvas_height })
    }

    /// The version byte of the file.
    pub fn version(&self) -> (version: u8)
        ensures
            version == self@.version,
    {
        self.version
    }

    /// The generation that the version byte names.
    pub fn generation(&self) -> (generation: Option<MocVersion>)
        ensures
            generation == MocVersion::of_moc_byte(self@.version),
    {
        MocVersion::from_moc_byte(self.version)
    }

    /// The parameters of the model.
    pub fn parameters(&self) -> (parameters: &[Parameter])
        ensures
            views(parameters@) == self@.params,
    {
        self.params.as_slice()
    }

    /// The parts of the model.
    pub fn parts(&self) -> (parts: &[Part])
        ensures
            views(parts@) == self@.parts,
    {
        self.parts.as_slice()
    }

    /// The width of the canvas.
    pub fn canvas_width(&self) -> (width: i32)
        ensures
            width == self@.canvas_width,
    {
        self.canvas_width
    }

    /// The height of the canvas.
    pub fn canvas_height(&self) -> (height: i32)
        ensures
            height == self@.canvas_height,
    {
        self.canvas_height
    }
}

} // verus!
