//! The decoders of the nodes.
//!
//! The definitions of the records with many fields are opaque, so that they
//! are opened only where they are called for: `reveal` opens them.

use crate::cubism_v1::moc::affines::{affines_of, Affine};
use crate::cubism_v1::moc::deformers::{
    CurvedSurfaceDeformer, CurvedSurfaceDeformerView, RotationDeformer, RotationDeformerView,
};
use crate::cubism_v1::moc::params::{Parameter, ParameterView};
use crate::cubism_v1::moc::parts::{Part, PartType, PartView};
use crate::cubism_v1::moc::pivots::{pivots_of, Pivot, PivotManager, PivotManagerView, PivotView};
use crate::cubism_v1::moc::{
    nodes_view, ObjectData, ObjectView, LATER_FIELDS_SINCE, TAG_AFFINE, TAG_BYTE,
    TAG_CURVED_SURFACE_DEFORMER, TAG_NULL, TAG_OBJECT_ARRAY, TAG_PARAMETER, TAG_PART, TAG_PIVOT,
    TAG_PIVOT_MANAGER, TAG_ROTATION_DEFORMER,
};
use crate::errors::L2Error;
use crate::reader::{
    agrees, agrees_in_view, decode_bytes, decode_i32, decode_str, decode_u32, decode_u32_list,
    decode_u8, decode_varint, le_u32, len_of, parsed_bytes, parsed_i32, parsed_str, parsed_u32,
    parsed_u32_list, parsed_u8, parsed_var, shortfall, MocReader, Parsed,
};
use crate::text::{string_from_utf8_lossy, utf8_lossy};
use crate::varint::lemma_varint_len;
use crate::views::views;
use vstd::prelude::*;

verus! {

/// A flag: one byte, which is 0 for false.
pub open spec fn parsed_flag(bytes: Seq<u8>, pos: int) -> Parsed<bool> {
    match parsed_u8(bytes, pos) {
        Ok((byte, len)) => Ok((byte != 0, len)),
        Err(e) => Err(e),
    }
}

/// A flag that files have from version 10 on, and that is false before.
pub open spec fn parsed_later_flag(bytes: Seq<u8>, pos: int, version: u8) -> Parsed<bool> {
    if version >= LATER_FIELDS_SINCE {
        parsed_flag(bytes, pos)
    } else {
        Ok((false, 0))
    }
}

/// An affine transform: five floats, then the two reflections.
#[verifier::opaque]
pub open spec fn parsed_affine(bytes: Seq<u8>, pos: int, version: u8) -> Parsed<Affine> {
    let origin_x = parsed_u32(bytes, pos);
    let origin_y = parsed_u32(bytes, pos + 4);
    let scale_x = parsed_u32(bytes, pos + 8);
    let scale_y = parsed_u32(bytes, pos + 12);
    let rotation = parsed_u32(bytes, pos + 16);
    let reflect_x = parsed_later_flag(bytes, pos + 20, version);
    let reflect_y = parsed_later_flag(bytes, pos + 20 + len_of(reflect_x), version);
    if origin_x is Err {
        Err(origin_x->Err_0)
    } else if origin_y is Err {
        Err(origin_y->Err_0)
    } else if scale_x is Err {
        Err(scale_x->Err_0)
    } else if scale_y is Err {
        Err(scale_y->Err_0)
    } else if rotation is Err {
        Err(rotation->Err_0)
    } else if reflect_x is Err {
        Err(reflect_x->Err_0)
    } else if reflect_y is Err {
        Err(reflect_y->Err_0)
    } else {
        Ok(
            (
                Affine {
                    origin_x: origin_x->Ok_0.0,
                    origin_y: origin_y->Ok_0.0,
                    scale_x: scale_x->Ok_0.0,
                    scale_y: scale_y->Ok_0.0,
                    rotation: rotation->Ok_0.0,
                    reflect_x: reflect_x->Ok_0.0,
                    reflect_y: reflect_y->Ok_0.0,
                },
                20 + len_of(reflect_x) + len_of(reflect_y),
            ),
        )
    }
}

/// Reads a flag at `pos`.
pub fn decode_flag(bytes: &[u8], pos: usize) -> (r: Result<(bool, usize), L2Error>)
    requires
        pos <= bytes.len(),
    ensures
        agrees(r, bytes@, pos, parsed_flag(bytes@, pos as int)),
{
    let (byte, end) = decode_u8(bytes, pos)?;
    Ok((byte != 0, end))
}

/// Reads a flag of the later versions at `pos`.
pub fn decode_later_flag(bytes: &[u8], pos: usize, version: u8) -> (r: Result<
    (bool, usize),
    L2Error,
>)
    requires
        pos <= bytes.len(),
    ensures
        agrees(r, bytes@, pos, parsed_later_flag(bytes@, pos as int, version)),
{
    if version >= LATER_FIELDS_SINCE {
        decode_flag(bytes, pos)
    } else {
        Ok((false, pos))
    }
}

/// Reads an affine transform at `pos`.
pub fn decode_affine(bytes: &[u8], pos: usize, version: u8) -> (r: Result<(Affine, usize), L2Error>)
    requires
        pos <= bytes.len(),
    ensures
        agrees(r, bytes@, pos, parsed_affine(bytes@, pos as int, version)),
{
    proof {
        reveal(parsed_affine);
    }
    let (origin_x, at) = decode_u32(bytes, pos)?;
    let (origin_y, at) = decode_u32(bytes, at)?;
    let (scale_x, at) = decode_u32(bytes, at)?;
    let (scale_y, at) = decode_u32(bytes, at)?;
    let (rotation, at) = decode_u32(bytes, at)?;
    let (reflect_x, at) = decode_later_flag(bytes, at, version)?;
    let (reflect_y, at) = decode_later_flag(bytes, at, version)?;
    Ok((Affine { origin_x, origin_y, scale_x, scale_y, rotation, reflect_x, reflect_y }, at))
}

/// An identifier: a tag, which may be any, then a string with its length
/// before it.
pub open spec fn parsed_id(bytes: Seq<u8>, pos: int) -> Parsed<Seq<char>> {
    match parsed_var(bytes, pos) {
        Err(e) => Err(e),
        Ok((_, tag_len)) => match parsed_str(bytes, pos + tag_len) {
            Err(e) => Err(e),
            Ok((text, len)) => Ok((text, tag_len + len)),
        },
    }
}

/// The opacities of a deformer: a list of floats that files have from
/// version 10 on, and that is empty before.
pub open spec fn parsed_opacities(bytes: Seq<u8>, pos: int, version: u8) -> Parsed<Seq<u32>> {
    if version >= LATER_FIELDS_SINCE {
        parsed_u32_list(bytes, pos)
    } else {
        Ok((Seq::empty(), 0))
    }
}

/// A pivot: its identifier, its count, and the list of its values.
#[verifier::opaque]
pub open spec fn parsed_pivot(bytes: Seq<u8>, pos: int) -> Parsed<PivotView> {
    let id = parsed_id(bytes, pos);
    let count = parsed_u32(bytes, pos + len_of(id));
    let values = parsed_u32_list(bytes, pos + len_of(id) + 4);
    if id is Err {
        Err(id->Err_0)
    } else if count is Err {
        Err(count->Err_0)
    } else if values is Err {
        Err(values->Err_0)
    } else {
        Ok(
            (
                PivotView { id: id->Ok_0.0, count: count->Ok_0.0, values: values->Ok_0.0 },
                len_of(id) + 4 + len_of(values),
            ),
        )
    }
}

/// The number of bytes from `pos` to the next offset that is a multiple of
/// 4.
pub open spec fn padding_at(pos: int) -> nat {
    ((4 - pos % 4) % 4) as nat
}

/// A parameter record: padding up to the next multiple of 4, the least, the
/// greatest and the default value as floats, and the name with its length
/// before it.
#[verifier::opaque]
pub open spec fn parsed_parameter(bytes: Seq<u8>, pos: int) -> Parsed<ParameterView> {
    let padding = padding_at(pos);
    let start = pos + padding;
    let min_value = parsed_u32(bytes, start);
    let max_value = parsed_u32(bytes, start + 4);
    let default_value = parsed_u32(bytes, start + 8);
    let name = parsed_str(bytes, start + 12);
    if bytes.len() - pos < padding {
        Err(shortfall(bytes, pos, padding as int))
    } else if min_value is Err {
        Err(min_value->Err_0)
    } else if max_value is Err {
        Err(max_value->Err_0)
    } else if default_value is Err {
        Err(default_value->Err_0)
    } else if name is Err {
        Err(name->Err_0)
    } else {
        Ok(
            (
                ParameterView {
                    name: name->Ok_0.0,
                    min_value: min_value->Ok_0.0,
                    max_value: max_value->Ok_0.0,
                    default_value: default_value->Ok_0.0,
                },
                padding + 12 + len_of(name),
            ),
        )
    }
}

/// The kind of part that a number names.
pub open spec fn part_type_of(code: u32) -> Result<PartType, L2Error> {
    if code == 0 {
        Ok(PartType::Normal)
    } else if code == 1 {
        Ok(PartType::Mesh)
    } else {
        Err(L2Error::UnknownTypeTag { tag: code as u64 })
    }
}

/// A part record: the length of the name as a 32-bit number, the bytes of
/// the name, and the kind of part as a 32-bit number.
#[verifier::opaque]
pub open spec fn parsed_part(bytes: Seq<u8>, pos: int) -> Parsed<PartView> {
    let len = parsed_u32(bytes, pos);
    let raw = parsed_bytes(bytes, pos + 4, len->Ok_0.0 as nat);
    let code = parsed_u32(bytes, pos + 4 + len_of(raw));
    if len is Err {
        Err(len->Err_0)
    } else if raw is Err {
        Err(raw->Err_0)
    } else if code is Err {
        Err(code->Err_0)
    } else {
        match part_type_of(code->Ok_0.0) {
            Err(e) => Err(e),
            Ok(part_type) => Ok(
                (PartView { name: utf8_lossy(raw->Ok_0.0), part_type }, 4 + len_of(raw) + 4),
            ),
        }
    }
}

/// The bytes that are left at `pos`, as the measure by which the decoders
/// of nodes are seen to end.
pub open spec fn room(bytes: Seq<u8>, pos: int) -> nat {
    if pos <= bytes.len() {
        (bytes.len() - pos) as nat
    } else {
        0
    }
}

/// The fields of a curved surface deformer before its pivots: its
/// identifier, that of its target, and the rows and columns of its grid.
#[verifier::opaque]
pub open spec fn parsed_surface_head(bytes: Seq<u8>, pos: int) -> Parsed<
    (Seq<char>, Seq<char>, i32, i32),
> {
    let id = parsed_id(bytes, pos);
    let target_id = parsed_id(bytes, pos + len_of(id));
    let row = parsed_i32(bytes, pos + len_of(id) + len_of(target_id));
    let column = parsed_i32(bytes, pos + len_of(id) + len_of(target_id) + 4);
    if id is Err {
        Err(id->Err_0)
    } else if target_id is Err {
        Err(target_id->Err_0)
    } else if row is Err {
        Err(row->Err_0)
    } else if column is Err {
        Err(column->Err_0)
    } else {
        Ok(
            (
                (id->Ok_0.0, target_id->Ok_0.0, row->Ok_0.0, column->Ok_0.0),
                len_of(id) + len_of(target_id) + 8,
            ),
        )
    }
}

/// The fields of a rotation deformer before its pivots: its identifier and
/// that of its target.
#[verifier::opaque]
pub open spec fn parsed_rotation_head(bytes: Seq<u8>, pos: int) -> Parsed<(Seq<char>, Seq<char>)> {
    let id = parsed_id(bytes, pos);
    let target_id = parsed_id(bytes, pos + len_of(id));
    if id is Err {
        Err(id->Err_0)
    } else if target_id is Err {
        Err(target_id->Err_0)
    } else {
        Ok(((id->Ok_0.0, target_id->Ok_0.0), len_of(id) + len_of(target_id)))
    }
}

/// The node that a tag of `tag_len` bytes and the value behind it make.
pub open spec fn tagged<T>(
    tag_len: nat,
    body: Parsed<T>,
    node: spec_fn(T) -> ObjectView,
) -> Parsed<ObjectView> {
    match body {
        Ok((value, len)) => Ok((node(value), tag_len + len)),
        Err(e) => Err(e),
    }
}

/// A node: its tag, then what the tag calls for. A tag that names no shape
/// is a failure: nothing says how long such a node is. Where no byte is
/// left, there is no tag.
pub open spec fn parsed_object(bytes: Seq<u8>, pos: int, version: u8) -> Parsed<ObjectView>
    decreases room(bytes, pos), 0nat, 0nat,
{
    if pos >= bytes.len() {
        Err(L2Error::InvalidVarint)
    } else {
        match parsed_var(bytes, pos) {
            Err(e) => Err(e),
            Ok((tag, tag_len)) => {
                proof {
                    lemma_varint_len(bytes.skip(pos));
                }
                let body = pos + tag_len;
                if tag == TAG_NULL {
                    Ok((ObjectView::Null, tag_len))
                } else if tag == TAG_BYTE {
                    tagged(tag_len, parsed_u8(bytes, body), |byte: u8| ObjectView::Byte(byte))
                } else if tag == TAG_OBJECT_ARRAY {
                    match parsed_var(bytes, body) {
                        Err(e) => Err(e),
                        Ok((count, count_len)) => tagged(
                            tag_len + count_len,
                            parsed_objects(bytes, body + count_len, version, count as nat),
                            |items: Seq<ObjectView>| ObjectView::ObjectArray(items),
                        ),
                    }
                } else if tag == TAG_CURVED_SURFACE_DEFORMER {
                    tagged(
                        tag_len,
                        parsed_curved_surface_deformer(bytes, body, version),
                        |deformer: CurvedSurfaceDeformerView|
                            ObjectView::CurvedSurfaceDeformer(deformer),
                    )
                } else if tag == TAG_PIVOT_MANAGER {
                    tagged(
                        tag_len,
                        parsed_pivot_manager(bytes, body, version),
                        |manager: PivotManagerView| ObjectView::PivotManager(manager),
                    )
                } else if tag == TAG_PIVOT {
                    tagged(
                        tag_len,
                        parsed_pivot(bytes, body),
                        |pivot: PivotView| ObjectView::Pivot(pivot),
                    )
                } else if tag == TAG_ROTATION_DEFORMER {
                    tagged(
                        tag_len,
                        parsed_rotation_deformer(bytes, body, version),
                        |deformer: RotationDeformerView| ObjectView::RotationDeformer(deformer),
                    )
                } else if tag == TAG_AFFINE {
                    tagged(
                        tag_len,
                        parsed_affine(bytes, body, version),
                        |affine: Affine| ObjectView::Affine(affine),
                    )
                } else if tag == TAG_PARAMETER {
                    tagged(
                        tag_len,
                        parsed_parameter(bytes, body),
                        |parameter: ParameterView| ObjectView::Parameter(parameter),
                    )
                } else if tag == TAG_PART {
                    tagged(
                        tag_len,
                        parsed_part(bytes, body),
                        |part: PartView| ObjectView::Part(part),
                    )
                } else {
                    Err(L2Error::UnknownTypeTag { tag })
                }
            },
        }
    }
}

/// `count` nodes in a row. An empty row is a row, not the null node.
pub open spec fn parsed_objects(bytes: Seq<u8>, pos: int, version: u8, count: nat) -> Parsed<
    Seq<ObjectView>,
>
    decreases room(bytes, pos), 1nat, count,
{
    if count == 0 {
        Ok((Seq::empty(), 0))
    } else {
        match parsed_object(bytes, pos, version) {
            Err(e) => Err(e),
            Ok((first, len)) => match parsed_objects(
                bytes,
                pos + len,
                version,
                (count - 1) as nat,
            ) {
                Err(e) => Err(e),
                Ok((rest, more)) => Ok((seq![first] + rest, len + more)),
            },
        }
    }
}

/// A pivot manager: one node, of which the pivots are taken.
pub open spec fn parsed_pivot_manager(bytes: Seq<u8>, pos: int, version: u8) -> Parsed<
    PivotManagerView,
>
    decreases room(bytes, pos), 2nat, 0nat,
{
    match parsed_object(bytes, pos, version) {
        Err(e) => Err(e),
        Ok((node, len)) => Ok((PivotManagerView { items: pivots_of(node) }, len)),
    }
}

/// A curved surface deformer: its identifier, that of its target, the rows
/// and columns of its grid, a node of which the pivots are taken, and the
/// opacities.
pub open spec fn parsed_curved_surface_deformer(bytes: Seq<u8>, pos: int, version: u8) -> Parsed<
    CurvedSurfaceDeformerView,
>
    decreases room(bytes, pos), 2nat, 0nat,
{
    match parsed_surface_head(bytes, pos) {
        Err(e) => Err(e),
        Ok((head, head_len)) => match parsed_object(bytes, pos + head_len, version) {
            Err(e) => Err(e),
            Ok((node, node_len)) => match parsed_opacities(
                bytes,
                pos + head_len + node_len,
                version,
            ) {
                Err(e) => Err(e),
                Ok((opacities, len)) => Ok(
                    (
                        CurvedSurfaceDeformerView {
                            id: head.0,
                            target_id: head.1,
                            row: head.2,
                            column: head.3,
                            pivots: pivots_of(node),
                            opacities,
                        },
                        head_len + node_len + len,
                    ),
                ),
            },
        },
    }
}

/// A rotation deformer: its identifier, that of its target, a node of which
/// the pivots are taken, a node of which the transforms are taken, and the
/// opacities.
pub open spec fn parsed_rotation_deformer(bytes: Seq<u8>, pos: int, version: u8) -> Parsed<
    RotationDeformerView,
>
    decreases room(bytes, pos), 2nat, 0nat,
{
    match parsed_rotation_head(bytes, pos) {
        Err(e) => Err(e),
        Ok((head, head_len)) => match parsed_object(bytes, pos + head_len, version) {
            Err(e) => Err(e),
            Ok((pivots, pivots_len)) => match parsed_object(
                bytes,
                pos + head_len + pivots_len,
                version,
            ) {
                Err(e) => Err(e),
                Ok((affine, affine_len)) => match parsed_opacities(
                    bytes,
                    pos + head_len + pivots_len + affine_len,
                    version,
                ) {
                    Err(e) => Err(e),
                    Ok((opacities, len)) => Ok(
                        (
                            RotationDeformerView {
                                id: head.0,
                                target_id: head.1,
                                pivots: pivots_of(pivots),
                                pivots_opacity: opacities,
                                affine: affines_of(affine),
                            },
                            head_len + pivots_len + affine_len + len,
                        ),
                    ),
                },
            },
        },
    }
}

/// A decoded row of nodes is the row that the format gives.
pub open spec fn nodes_agree(
    r: Result<(Vec<ObjectData>, usize), L2Error>,
    bytes: Seq<u8>,
    pos: usize,
    expected: Parsed<Seq<ObjectView>>,
) -> bool {
    match r {
        Ok((nodes, end)) => expected == Ok::<(Seq<ObjectView>, nat), L2Error>(
            (nodes_view(nodes@), (end - pos) as nat),
        ) && pos <= end <= bytes.len(),
        Err(e) => expected == Err::<(Seq<ObjectView>, nat), L2Error>(e),
    }
}

/// Reads an identifier at `pos`.
pub fn decode_id(bytes: &[u8], pos: usize) -> (r: Result<(String, usize), L2Error>)
    requires
        pos <= bytes.len(),
    ensures
        agrees_in_view(r, bytes@, pos, parsed_id(bytes@, pos as int)),
{
    let (_, start) = decode_varint(bytes, pos)?;
    decode_str(bytes, start)
}

/// Reads the opacities of a deformer at `pos`.
pub fn decode_opacities(bytes: &[u8], pos: usize, version: u8) -> (r: Result<
    (Vec<u32>, usize),
    L2Error,
>)
    requires
        pos <= bytes.len(),
    ensures
        agrees_in_view(r, bytes@, pos, parsed_opacities(bytes@, pos as int, version)),
{
    if version >= LATER_FIELDS_SINCE {
        decode_u32_list(bytes, pos)
    } else {
        Ok((Vec::new(), pos))
    }
}

/// Reads a pivot at `pos`.
pub fn decode_pivot(bytes: &[u8], pos: usize) -> (r: Result<(Pivot, usize), L2Error>)
    requires
        pos <= bytes.len(),
    ensures
        agrees_in_view(r, bytes@, pos, parsed_pivot(bytes@, pos as int)),
{
    proof {
        reveal(parsed_pivot);
    }
    let (id, at) = decode_id(bytes, pos)?;
    let (count, at) = decode_u32(bytes, at)?;
    let (values, at) = decode_u32_list(bytes, at)?;
    Ok((Pivot { id, count, values }, at))
}

/// Reads a parameter record at `pos`.
pub fn decode_parameter(bytes: &[u8], pos: usize) -> (r: Result<(Parameter, usize), L2Error>)
    requires
        pos <= bytes.len(),
    ensures
        agrees_in_view(r, bytes@, pos, parsed_parameter(bytes@, pos as int)),
{
    proof {
        reveal(parsed_parameter);
    }
    let padding: usize = (4 - pos % 4) % 4;
    let have = bytes.len() - pos;
    if have < padding {
        return Err(L2Error::OutOfBounds { have: have as u64, need: padding as u64 });
    }
    let (min_value, at) = decode_u32(bytes, pos + padding)?;
    let (max_value, at) = decode_u32(bytes, at)?;
    let (default_value, at) = decode_u32(bytes, at)?;
    let (name, at) = decode_str(bytes, at)?;
    Ok((Parameter { name, min_value, max_value, default_value }, at))
}

/// Reads a part record at `pos`.
pub fn decode_part(bytes: &[u8], pos: usize) -> (r: Result<(Part, usize), L2Error>)
    requires
        pos <= bytes.len(),
    ensures
        agrees_in_view(r, bytes@, pos, parsed_part(bytes@, pos as int)),
{
    proof {
        reveal(parsed_part);
    }
    let (len, at) = decode_u32(bytes, pos)?;
    let (raw, at) = decode_bytes(bytes, at, len as u64)?;
    let (code, at) = decode_u32(bytes, at)?;
    let part_type = if code == 0 {
        PartType::Normal
    } else if code == 1 {
        PartType::Mesh
    } else {
        return Err(L2Error::UnknownTypeTag { tag: code as u64 });
    };
    Ok((Part { name: string_from_utf8_lossy(raw), part_type }, at))
}

/// Reads a node at `pos`.
pub fn decode_object(bytes: &[u8], pos: usize, version: u8) -> (r: Result<
    (ObjectData, usize),
    L2Error,
>)
    requires
        pos <= bytes.len(),
    ensures
        agrees_in_view(r, bytes@, pos, parsed_object(bytes@, pos as int, version)),
    decreases bytes.len() - pos, 0nat, 0nat,
{
    if pos >= bytes.len() {
        return Err(L2Error::InvalidVarint);
    }
    let (tag, body) = decode_varint(bytes, pos)?;
    if tag == TAG_NULL {
        Ok((ObjectData::Null, body))
    } else if tag == TAG_BYTE {
        let (byte, end) = decode_u8(bytes, body)?;
        Ok((ObjectData::Byte(byte), end))
    } else if tag == TAG_OBJECT_ARRAY {
        let (count, first) = decode_varint(bytes, body)?;
        let (items, end) = decode_objects(bytes, first, version, count)?;
        Ok((ObjectData::ObjectArray(items), end))
    } else if tag == TAG_CURVED_SURFACE_DEFORMER {
        let (deformer, end) = decode_curved_surface_deformer(bytes, body, version)?;
        Ok((ObjectData::CurvedSurfaceDeformer(deformer), end))
    } else if tag == TAG_PIVOT_MANAGER {
        let (manager, end) = decode_pivot_manager(bytes, body, version)?;
        Ok((ObjectData::PivotManager(manager), end))
    } else if tag == TAG_PIVOT {
        let (pivot, end) = decode_pivot(bytes, body)?;
        Ok((ObjectData::Pivot(pivot), end))
    } else if tag == TAG_ROTATION_DEFORMER {
        let (deformer, end) = decode_rotation_deformer(bytes, body, version)?;
        Ok((ObjectData::RotationDeformer(deformer), end))
    } else if tag == TAG_AFFINE {
        let (affine, end) = decode_affine(bytes, body, version)?;
        Ok((ObjectData::Affine(affine), end))
    } else if tag == TAG_PARAMETER {
        let (parameter, end) = decode_parameter(bytes, body)?;
        Ok((ObjectData::Parameter(parameter), end))
    } else if tag == TAG_PART {
        let (part, end) = decode_part(bytes, body)?;
        Ok((ObjectData::Part(part), end))
    } else {
        Err(L2Error::UnknownTypeTag { tag })
    }
}

/// Reads `count` nodes in a row at `pos`.
pub fn decode_objects(bytes: &[u8], pos: usize, version: u8, count: u64) -> (r: Result<
    (Vec<ObjectData>, usize),
    L2Error,
>)
    requires
        pos <= bytes.len(),
    ensures
        nodes_agree(r, bytes@, pos, parsed_objects(bytes@, pos as int, version, count as nat)),
    decreases bytes.len() - pos, 1nat, count,
{
    let mut items: Vec<ObjectData> = Vec::new();
    let mut at: usize = pos;
    let mut done: u64 = 0;
    while done < count
        invariant
            pos <= at <= bytes.len(),
            done <= count,
            parsed_objects(bytes@, pos as int, version, count as nat) == match parsed_objects(
                bytes@,
                at as int,
                version,
                (count - done) as nat,
            ) {
                Ok((rest, more)) => Ok::<(Seq<ObjectView>, nat), L2Error>(
                    (nodes_view(items@) + rest, (at - pos) as nat + more),
                ),
                Err(e) => Err::<(Seq<ObjectView>, nat), L2Error>(e),
            },
        decreases count - done,
    {
        let ghost before = items@;
        match decode_object(bytes, at, version) {
            Err(e) => {
                return Err(e);
            },
            Ok((node, next)) => {
                items.push(node);
                proof {
                    let rest = parsed_objects(
                        bytes@,
                        next as int,
                        version,
                        (count - done - 1) as nat,
                    );
                    assert(nodes_view(items@) =~= nodes_view(before) + seq![node@]);
                    if rest is Ok {
                        assert(nodes_view(before) + (seq![node@] + rest->Ok_0.0) =~= nodes_view(
                            items@,
                        ) + rest->Ok_0.0);
                    }
                }
                at = next;
                done = done + 1;
            },
        }
    }
    proof {
        assert(nodes_view(items@) + Seq::<ObjectView>::empty() =~= nodes_view(items@));
    }
    Ok((items, at))
}

/// Reads a pivot manager at `pos`.
pub fn decode_pivot_manager(bytes: &[u8], pos: usize, version: u8) -> (r: Result<
    (PivotManager, usize),
    L2Error,
>)
    requires
        pos <= bytes.len(),
    ensures
        agrees_in_view(r, bytes@, pos, parsed_pivot_manager(bytes@, pos as int, version)),
    decreases bytes.len() - pos, 2nat, 0nat,
{
    let (node, end) = decode_object(bytes, pos, version)?;
    Ok((PivotManager { items: node.as_pivots() }, end))
}

/// Reads the fields of a curved surface deformer before its pivots.
fn decode_surface_head(bytes: &[u8], pos: usize) -> (r: Result<
    ((String, String, i32, i32), usize),
    L2Error,
>)
    requires
        pos <= bytes.len(),
    ensures
        match r {
            Ok((head, end)) => parsed_surface_head(bytes@, pos as int) == Ok::<
                ((Seq<char>, Seq<char>, i32, i32), nat),
                L2Error,
            >(((head.0@, head.1@, head.2, head.3), (end - pos) as nat)) && pos <= end
                <= bytes.len(),
            Err(e) => parsed_surface_head(bytes@, pos as int) == Err::<
                ((Seq<char>, Seq<char>, i32, i32), nat),
                L2Error,
            >(e),
        },
{
    proof {
        reveal(parsed_surface_head);
    }
    let (id, at) = decode_id(bytes, pos)?;
    let (target_id, at) = decode_id(bytes, at)?;
    let (row, at) = decode_i32(bytes, at)?;
    let (column, at) = decode_i32(bytes, at)?;
    Ok(((id, target_id, row, column), at))
}

/// Reads the fields of a rotation deformer before its pivots.
fn decode_rotation_head(bytes: &[u8], pos: usize) -> (r: Result<((String, String), usize), L2Error>)
    requires
        pos <= bytes.len(),
    ensures
        match r {
            Ok((head, end)) => parsed_rotation_head(bytes@, pos as int) == Ok::<
                ((Seq<char>, Seq<char>), nat),
                L2Error,
            >(((head.0@, head.1@), (end - pos) as nat)) && pos <= end <= bytes.len(),
            Err(e) => parsed_rotation_head(bytes@, pos as int) == Err::<
                ((Seq<char>, Seq<char>), nat),
                L2Error,
            >(e),
        },
{
    proof {
        reveal(parsed_rotation_head);
    }
    let (id, at) = decode_id(bytes, pos)?;
    let (target_id, at) = decode_id(bytes, at)?;
    Ok(((id, target_id), at))
}

/// Reads a curved surface deformer at `pos`.
pub fn decode_curved_surface_deformer(bytes: &[u8], pos: usize, version: u8) -> (r: Result<
    (CurvedSurfaceDeformer, usize),
    L2Error,
>)
    requires
        pos <= bytes.len(),
    ensures
        agrees_in_view(
            r,
            bytes@,
            pos,
            parsed_curved_surface_deformer(bytes@, pos as int, version),
        ),
    decreases bytes.len() - pos, 2nat, 0nat,
{
    let ((id, target_id, row, column), at) = decode_surface_head(bytes, pos)?;
    let (node, at) = decode_object(bytes, at, version)?;
    let (opacities, at) = decode_opacities(bytes, at, version)?;
    Ok(
        (
            CurvedSurfaceDeformer {
                id,
                target_id,
                row,
                column,
                pivots: node.as_pivots(),
                opacities,
            },
            at,
        ),
    )
}

/// Reads a rotation deformer at `pos`.
pub fn decode_rotation_deformer(bytes: &[u8], pos: usize, version: u8) -> (r: Result<
    (RotationDeformer, usize),
    L2Error,
>)
    requires
        pos <= bytes.len(),
    ensures
        agrees_in_view(r, bytes@, pos, parsed_rotation_deformer(bytes@, pos as int, version)),
    decreases bytes.len() - pos, 2nat, 0nat,
{
    let ((id, target_id), at) = decode_rotation_head(bytes, pos)?;
    let (pivots, at) = decode_object(bytes, at, version)?;
    let (affine, at) = decode_object(bytes, at, version)?;
    let (opacities, at) = decode_opacities(bytes, at, version)?;
    Ok(
        (
            RotationDeformer {
                id,
                target_id,
                pivots: pivots.as_pivots(),
                pivots_opacity: opacities,
                affine: affine.as_affine(),
            },
            at,
        ),
    )
}

/// `count` parameter records in a row.
pub open spec fn parsed_parameter_records(bytes: Seq<u8>, pos: int, count: nat) -> Parsed<
    Seq<ParameterView>,
>
    decreases count,
{
    if count == 0 {
        Ok((Seq::empty(), 0))
    } else {
        match parsed_parameter(bytes, pos) {
            Err(e) => Err(e),
            Ok((first, len)) => match parsed_parameter_records(
                bytes,
                pos + len,
                (count - 1) as nat,
            ) {
                Err(e) => Err(e),
                Ok((rest, more)) => Ok((seq![first] + rest, len + more)),
            },
        }
    }
}

/// A list of parameters: their number as a variable-length integer, then
/// that many parameter records.
pub open spec fn parsed_parameters(bytes: Seq<u8>, pos: int) -> Parsed<Seq<ParameterView>> {
    match parsed_var(bytes, pos) {
        Err(e) => Err(e),
        Ok((count, prefix)) => match parsed_parameter_records(
            bytes,
            pos + prefix,
            count as nat,
        ) {
            Err(e) => Err(e),
            Ok((parameters, len)) => Ok((parameters, prefix + len)),
        },
    }
}

/// `count` part records in a row.
pub open spec fn parsed_part_records(bytes: Seq<u8>, pos: int, count: nat) -> Parsed<Seq<PartView>>
    decreases count,
{
    if count == 0 {
        Ok((Seq::empty(), 0))
    } else {
        match parsed_part(bytes, pos) {
            Err(e) => Err(e),
            Ok((first, len)) => match parsed_part_records(bytes, pos + len, (count - 1) as nat) {
                Err(e) => Err(e),
                Ok((rest, more)) => Ok((seq![first] + rest, len + more)),
            },
        }
    }
}

/// A list of parts: their number as a variable-length integer, then that
/// many part records.
pub open spec fn parsed_parts(bytes: Seq<u8>, pos: int) -> Parsed<Seq<PartView>> {
    match parsed_var(bytes, pos) {
        Err(e) => Err(e),
        Ok((count, prefix)) => match parsed_part_records(bytes, pos + prefix, count as nat) {
            Err(e) => Err(e),
            Ok((parts, len)) => Ok((parts, prefix + len)),
        },
    }
}

/// A decoded list is the list that the format gives.
pub open spec fn list_agrees<T: View>(
    r: Result<(Vec<T>, usize), L2Error>,
    bytes: Seq<u8>,
    pos: usize,
    expected: Parsed<Seq<T::V>>,
) -> bool {
    match r {
        Ok((items, end)) => expected == Ok::<(Seq<T::V>, nat), L2Error>(
            (views(items@), (end - pos) as nat),
        ) && pos <= end <= bytes.len(),
        Err(e) => expected == Err::<(Seq<T::V>, nat), L2Error>(e),
    }
}

/// Reads a list of parameters at `pos`.
pub fn decode_parameters(bytes: &[u8], pos: usize) -> (r: Result<(Vec<Parameter>, usize), L2Error>)
    requires
        pos <= bytes.len(),
    ensures
        list_agrees(r, bytes@, pos, parsed_parameters(bytes@, pos as int)),
{
    let (count, start) = decode_varint(bytes, pos)?;
    let mut items: Vec<Parameter> = Vec::new();
    let mut at: usize = start;
    let mut done: u64 = 0;
    assert(views(items@) =~= Seq::<ParameterView>::empty());
    while done < count
        invariant
            start <= at <= bytes.len(),
            done <= count,
            parsed_var(bytes@, pos as int) == Ok::<(u64, nat), L2Error>(
                (count, (start - pos) as nat),
            ),
            pos <= start,
            parsed_parameter_records(bytes@, start as int, count as nat)
                == match parsed_parameter_records(bytes@, at as int, (count - done) as nat) {
                Ok((rest, more)) => Ok::<(Seq<ParameterView>, nat), L2Error>(
                    (views(items@) + rest, (at - start) as nat + more),
                ),
                Err(e) => Err::<(Seq<ParameterView>, nat), L2Error>(e),
            },
        decreases count - done,
    {
        let ghost before = items@;
        match decode_parameter(bytes, at) {
            Err(e) => {
                assert(parsed_parameter_records(bytes@, at as int, (count - done) as nat)
                    == Err::<(Seq<ParameterView>, nat), L2Error>(e));
                return Err(e);
            },
            Ok((item, next)) => {
                items.push(item);
                proof {
                    let rest = parsed_parameter_records(
                        bytes@,
                        next as int,
                        (count - done - 1) as nat,
                    );
                    assert(views(items@) =~= views(before) + seq![item@]);
                    if rest is Ok {
                        assert(views(before) + (seq![item@] + rest->Ok_0.0) =~= views(items@)
                            + rest->Ok_0.0);
                    }
                }
                at = next;
                done = done + 1;
            },
        }
    }
    proof {
        assert(views(items@) + Seq::<ParameterView>::empty() =~= views(items@));
    }
    Ok((items, at))
}

/// Reads a list of parts at `pos`.
pub fn decode_parts(bytes: &[u8], pos: usize) -> (r: Result<(Vec<Part>, usize), L2Error>)
    requires
        pos <= bytes.len(),
    ensures
        list_agrees(r, bytes@, pos, parsed_parts(bytes@, pos as int)),
{
    let (count, start) = decode_varint(bytes, pos)?;
    let mut items: Vec<Part> = Vec::new();
    let mut at: usize = start;
    let mut done: u64 = 0;
    assert(views(items@) =~= Seq::<PartView>::empty());
    while done < count
        invariant
            start <= at <= bytes.len(),
            done <= count,
            parsed_var(bytes@, pos as int) == Ok::<(u64, nat), L2Error>(
                (count, (start - pos) as nat),
            ),
            pos <= start,
            parsed_part_records(bytes@, start as int, count as nat) == match parsed_part_records(
                bytes@,
                at as int,
                (count - done) as nat,
            ) {
                Ok((rest, more)) => Ok::<(Seq<PartView>, nat), L2Error>(
                    (views(items@) + rest, (at - start) as nat + more),
                ),
                Err(e) => Err::<(Seq<PartView>, nat), L2Error>(e),
            },
        decreases count - done,
    {
        let ghost before = items@;
        match decode_part(bytes, at) {
            Err(e) => {
                assert(parsed_part_records(bytes@, at as int, (count - done) as nat) == Err::<
                    (Seq<PartView>, nat),
                    L2Error,
                >(e));
                return Err(e);
            },
            Ok((item, next)) => {
                items.push(item);
                proof {
                    let rest = parsed_part_records(bytes@, next as int, (count - done - 1) as nat);
                    assert(views(items@) =~= views(before) + seq![item@]);
                    if rest is Ok {
                        assert(views(before) + (seq![item@] + rest->Ok_0.0) =~= views(items@)
                            + rest->Ok_0.0);
                    }
                }
                at = next;
                done = done + 1;
            },
        }
    }
    proof {
        assert(views(items@) + Seq::<PartView>::empty() =~= views(items@));
    }
    Ok((items, at))
}

impl ObjectData {
    /// Reads a node at the cursor.
    pub fn read_object(reader: &mut MocReader) -> (r: Result<ObjectData, L2Error>)
        requires
            old(reader).wf(),
        ensures
            old(reader).reads_in_view(
                final(reader),
                r,
                parsed_object(
                    old(reader).bytes(),
                    old(reader).position(),
                    old(reader).file_version(),
                ),
            ),
    {
        let decoded = decode_object(reader.input(), reader.offset(), reader.version());
        reader.accept(decoded)
    }
}

impl<'i> MocReader<'i> {
    /// Reads a node at the cursor.
    pub fn read(&mut self) -> (r: Result<ObjectData, L2Error>)
        requires
            old(self).wf(),
        ensures
            old(self).reads_in_view(
                final(self),
                r,
                parsed_object(old(self).bytes(), old(self).position(), old(self).file_version()),
            ),
    {
        ObjectData::read_object(self)
    }
}

/// The reflections of a transform are read from version 10 on only: where
/// the buffer ends just behind the five floats of a transform, a version
/// before 10 gives the transform, without reflections, and a version from 10
/// on fails for the byte that is not there.
pub proof fn lemma_affine_version_gate(bytes: Seq<u8>, pos: int, version: u8)
    requires
        0 <= pos,
        bytes.len() == pos + 20,
    ensures
        version < 10 ==> parsed_affine(bytes, pos, version) == Ok::<(Affine, nat), L2Error>(
            (
                Affine {
                    origin_x: le_u32(bytes, pos),
                    origin_y: le_u32(bytes, pos + 4),
                    scale_x: le_u32(bytes, pos + 8),
                    scale_y: le_u32(bytes, pos + 12),
                    rotation: le_u32(bytes, pos + 16),
                    reflect_x: false,
                    reflect_y: false,
                },
                20,
            ),
        ),
        version >= 10 ==> parsed_affine(bytes, pos, version) == Err::<(Affine, nat), L2Error>(
            L2Error::OutOfBounds { have: 0, need: 1 },
        ),
{
    reveal(parsed_affine);
}

/// The same of a whole node: the tag of a transform and five floats are a
/// node before version 10, and a failure from version 10 on.
pub proof fn lemma_affine_node_version_gate(bytes: Seq<u8>, version: u8)
    requires
        bytes.len() == 21,
        bytes[0] == TAG_AFFINE,
    ensures
        version < 10 ==> parsed_object(bytes, 0, version) == Ok::<(ObjectView, nat), L2Error>(
            (
                ObjectView::Affine(
                    Affine {
                        origin_x: le_u32(bytes, 1),
                        origin_y: le_u32(bytes, 5),
                        scale_x: le_u32(bytes, 9),
                        scale_y: le_u32(bytes, 13),
                        rotation: le_u32(bytes, 17),
                        reflect_x: false,
                        reflect_y: false,
                    },
                ),
                21,
            ),
        ),
        version >= 10 ==> parsed_object(bytes, 0, version) == Err::<(ObjectView, nat), L2Error>(
            L2Error::OutOfBounds { have: 0, need: 1 },
        ),
{
    assert(bytes.skip(0) =~= bytes);
    lemma_affine_version_gate(bytes, 1, version);
}

} // verus!
