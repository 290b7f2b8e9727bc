//! The art meshes of a model.

use crate::cubism_v3::moc3::cells::{
    flag_cell, i32_cell, name_cell, optional_i32_cell, read_flag_cell, read_i32_cell,
    read_name_cell, read_optional_i32_cell, read_u32_cell, record_fits, record_shortfall,
    start_record, u32_cell, word,
};
use crate::cubism_v3::moc3::{appended_at, widening, Moc3};
use crate::errors::L2Error;
use crate::helpers::MocVersion;
use crate::reader::le_u32;
use vstd::prelude::*;

verus! {

/// Where the record of the art mesh columns of generation 3.0 lies.
pub const ART_MESH_OFFSETS_AT: usize = 0xC4;

/// The number of art mesh columns of generation 3.0.
pub const ART_MESH_SLOTS: usize = 16;

/// Where the record of the column that generation 4.2 appended lies, before
/// any widening.
pub const ART_MESH_COLORS_AT: u32 = 0x1EC;

/// The offset of each column of the art meshes. A column that the file's
/// generation does not have has no offset.
#[derive(Copy, Clone, Debug, PartialEq, Eq, Structural)]
pub struct ArtMeshOffsets {
    pub name: u32,
    pub keyform_binding_sources_indices: u32,
    pub keyform_sources_begin_indices: u32,
    pub keyform_sources_counts: u32,
    pub is_visible: u32,
    pub is_enabled: u32,
    pub parent_part_indices: u32,
    pub parent_deformer_indices: u32,
    pub texture_indices: u32,
    pub drawable_flags: u32,
    pub vertex_counts: u32,
    pub uv_sources_begin_indices: u32,
    pub position_index_source_begin_indices: u32,
    pub position_index_source_counts: u32,
    pub drawable_mask_sources_begin_indices: u32,
    pub drawable_mask_source_counts: u32,
    /// Since generation 4.2.
    pub keyform_color_source_begin_indices: Option<u32>,
}

/// The flags of a drawable, one to a bit.
#[derive(Copy, Clone, Debug, PartialEq, Eq, Structural)]
pub struct DrawableFlags(u32);

impl DrawableFlags {
    /// The flags as one number.
    pub closed spec fn spec_bits(&self) -> u32 {
        self.0
    }

    /// The flags that `bits` holds.
    pub fn new(bits: u32) -> (flags: DrawableFlags)
        ensures
            flags.spec_bits() == bits,
            flags == Self::of(bits),
    {
        DrawableFlags(bits)
    }

    /// The flags that `bits` holds.
    pub closed spec fn of(bits: u32) -> DrawableFlags {
        DrawableFlags(bits)
    }

    /// The flags as one number.
    pub fn bits(&self) -> (bits: u32)
        ensures
            bits == self.spec_bits(),
    {
        self.0
    }

    /// Bit 0: the drawable is shown.
    pub fn is_visible(&self) -> (r: bool)
        ensures
            r == (self.spec_bits() & 0x01 != 0),
    {
        self.0 & 0x01 != 0
    }

    /// Bit 1: the drawable takes part.
    pub fn is_enabled(&self) -> (r: bool)
        ensures
            r == (self.spec_bits() & 0x02 != 0),
    {
        self.0 & 0x02 != 0
    }

    /// Bit 2: back faces are culled.
    pub fn is_culling(&self) -> (r: bool)
        ensures
            r == (self.spec_bits() & 0x04 != 0),
    {
        self.0 & 0x04 != 0
    }

    /// Bit 3: the drawable is clipped by a mask.
    pub fn is_masked(&self) -> (r: bool)
        ensures
            r == (self.spec_bits() & 0x08 != 0),
    {
        self.0 & 0x08 != 0
    }

    /// Bit 4: the mask is inverted.
    pub fn is_inverted_mask(&self) -> (r: bool)
        ensures
            r == (self.spec_bits() & 0x10 != 0),
    {
        self.0 & 0x10 != 0
    }
}

/// One art mesh, as read from the columns.
#[derive(Debug, PartialEq)]
pub struct ArtMesh<'i> {
    pub name: &'i str,
    pub is_visible: bool,
    pub is_enabled: bool,
    pub parent_part_indices: i32,
    pub parent_deformer_indices: i32,
    pub texture_indices: u32,
    pub drawable_flags: DrawableFlags,
    pub vertex_counts: u32,
    pub keyform_color_source_begin_indices: Option<i32>,
}

/// What an [`ArtMesh`] holds.
pub struct ArtMeshView {
    pub name: Seq<char>,
    pub is_visible: bool,
    pub is_enabled: bool,
    pub parent_part_indices: i32,
    pub parent_deformer_indices: i32,
    pub texture_indices: u32,
    pub drawable_flags: DrawableFlags,
    pub vertex_counts: u32,
    pub keyform_color_source_begin_indices: Option<i32>,
}

impl<'i> View for ArtMesh<'i> {
    type V = ArtMeshView;

    open spec fn view(&self) -> ArtMeshView {
        ArtMeshView {
            name: self.name@,
            is_visible: self.is_visible,
            is_enabled: self.is_enabled,
            parent_part_indices: self.parent_part_indices,
            parent_deformer_indices: self.parent_deformer_indices,
            texture_indices: self.texture_indices,
            drawable_flags: self.drawable_flags,
            vertex_counts: self.vertex_counts,
            keyform_color_source_begin_indices: self.keyform_color_source_begin_indices,
        }
    }
}

/// The records of the art mesh columns: sixteen offsets from `0xC4` on in
/// every generation, one more at `0x1EC` from generation 4.2 on, moved by the
/// widening of generation 5.0.
pub open spec fn art_mesh_offsets(bytes: Seq<u8>, version: MocVersion) -> Result<
    ArtMeshOffsets,
    L2Error,
> {
    let colors_at = appended_at(0x1EC, version);
    let has_colors = version.spec_rank() >= MocVersion::V42.spec_rank();
    if !record_fits(bytes, 0xC4, 16) {
        Err(record_shortfall(bytes, 0xC4, 16))
    } else if has_colors && !record_fits(bytes, colors_at, 1) {
        Err(record_shortfall(bytes, colors_at, 1))
    } else {
        Ok(
            ArtMeshOffsets {
                name: le_u32(bytes, 0xC4),
                keyform_binding_sources_indices: le_u32(bytes, 0xC8),
                keyform_sources_begin_indices: le_u32(bytes, 0xCC),
                keyform_sources_counts: le_u32(bytes, 0xD0),
                is_visible: le_u32(bytes, 0xD4),
                is_enabled: le_u32(bytes, 0xD8),
                parent_part_indices: le_u32(bytes, 0xDC),
                parent_deformer_indices: le_u32(bytes, 0xE0),
                texture_indices: le_u32(bytes, 0xE4),
                drawable_flags: le_u32(bytes, 0xE8),
                vertex_counts: le_u32(bytes, 0xEC),
                uv_sources_begin_indices: le_u32(bytes, 0xF0),
                position_index_source_begin_indices: le_u32(bytes, 0xF4),
                position_index_source_counts: le_u32(bytes, 0xF8),
                drawable_mask_sources_begin_indices: le_u32(bytes, 0xFC),
                drawable_mask_source_counts: le_u32(bytes, 0x100),
                keyform_color_source_begin_indices: if has_colors {
                    Some(le_u32(bytes, colors_at))
                } else {
                    None
                },
            },
        )
    }
}

/// Art mesh `index`, cell by cell. The cells are read in the order below and
/// the first that fails decides the failure.
pub open spec fn art_mesh_entry(bytes: Seq<u8>, offsets: ArtMeshOffsets, index: u32) -> Result<
    ArtMeshView,
    L2Error,
> {
    let name = name_cell(bytes, offsets.name, index);
    let is_visible = flag_cell(bytes, offsets.is_visible, index);
    let is_enabled = flag_cell(bytes, offsets.is_enabled, index);
    let parent_part = i32_cell(bytes, offsets.parent_part_indices, index);
    let parent_deformer = i32_cell(bytes, offsets.parent_deformer_indices, index);
    let texture = u32_cell(bytes, offsets.texture_indices, index);
    let flags = u32_cell(bytes, offsets.drawable_flags, index);
    let vertices = u32_cell(bytes, offsets.vertex_counts, index);
    let colors = optional_i32_cell(bytes, offsets.keyform_color_source_begin_indices, index);
    if name is Err {
        Err(name->Err_0)
    } else if is_visible is Err {
        Err(is_visible->Err_0)
    } else if is_enabled is Err {
        Err(is_enabled->Err_0)
    } else if parent_part is Err {
        Err(parent_part->Err_0)
    } else if parent_deformer is Err {
        Err(parent_deformer->Err_0)
    } else if texture is Err {
        Err(texture->Err_0)
    } else if flags is Err {
        Err(flags->Err_0)
    } else if vertices is Err {
        Err(vertices->Err_0)
    } else if colors is Err {
        Err(colors->Err_0)
    } else {
        Ok(
            ArtMeshView {
                name: name->Ok_0,
                is_visible: is_visible->Ok_0,
                is_enabled: is_enabled->Ok_0,
                parent_part_indices: parent_part->Ok_0,
                parent_deformer_indices: parent_deformer->Ok_0,
                texture_indices: texture->Ok_0,
                drawable_flags: DrawableFlags::of(flags->Ok_0),
                vertex_counts: vertices->Ok_0,
                keyform_color_source_begin_indices: colors->Ok_0,
            },
        )
    }
}

/// An entry as read is the entry that the columns hold.
pub open spec fn art_mesh_agrees(
    r: Result<ArtMesh<'_>, L2Error>,
    expected: Result<ArtMeshView, L2Error>,
) -> bool {
    match r {
        Ok(mesh) => expected == Ok::<ArtMeshView, L2Error>(mesh@),
        Err(e) => expected == Err::<ArtMeshView, L2Error>(e),
    }
}

impl ArtMeshOffsets {
    /// Reads the records of the art mesh columns from the preamble of a file
    /// of the given generation.
    pub fn read(moc3: &[u8], version: MocVersion) -> (r: Result<ArtMeshOffsets, L2Error>)
        ensures
            r == art_mesh_offsets(moc3@, version),
    {
        let at = start_record(moc3, ART_MESH_OFFSETS_AT as u64, ART_MESH_SLOTS)?;
        let mut keyform_color_source_begin_indices: Option<u32> = None;
        if version.at_least(MocVersion::V42) {
            let colors = start_record(
                moc3,
                (ART_MESH_COLORS_AT + widening(version)) as u64,
                1,
            )?;
            keyform_color_source_begin_indices = Some(word(moc3, colors));
        }
        Ok(
            ArtMeshOffsets {
                name: word(moc3, at),
                keyform_binding_sources_indices: word(moc3, at + 4),
                keyform_sources_begin_indices: word(moc3, at + 8),
                keyform_sources_counts: word(moc3, at + 12),
                is_visible: word(moc3, at + 16),
                is_enabled: word(moc3, at + 20),
                parent_part_indices: word(moc3, at + 24),
                parent_deformer_indices: word(moc3, at + 28),
                texture_indices: word(moc3, at + 32),
                drawable_flags: word(moc3, at + 36),
                vertex_counts: word(moc3, at + 40),
                uv_sources_begin_indices: word(moc3, at + 44),
                position_index_source_begin_indices: word(moc3, at + 48),
                position_index_source_counts: word(moc3, at + 52),
                drawable_mask_sources_begin_indices: word(moc3, at + 56),
                drawable_mask_source_counts: word(moc3, at + 60),
                keyform_color_source_begin_indices,
            },
        )
    }

    /// Reads art mesh `index` out of `bytes`, whatever the number of art
    /// meshes is.
    pub fn get_unchecked<'i>(&self, bytes: &'i [u8], index: u32) -> (r: Result<
        ArtMesh<'i>,
        L2Error,
    >)
        ensures
            art_mesh_agrees(r, art_mesh_entry(bytes@, *self, index)),
    {
        let name = read_name_cell(bytes, self.name, index)?;
        let is_visible = read_flag_cell(bytes, self.is_visible, index)?;
        let is_enabled = read_flag_cell(bytes, self.is_enabled, index)?;
        let parent_part_indices = read_i32_cell(bytes, self.parent_part_indices, index)?;
        let parent_deformer_indices = read_i32_cell(bytes, self.parent_deformer_indices, index)?;
        let texture_indices = read_u32_cell(bytes, self.texture_indices, index)?;
        let flags = read_u32_cell(bytes, self.drawable_flags, index)?;
        let vertex_counts = read_u32_cell(bytes, self.vertex_counts, index)?;
        let keyform_color_source_begin_indices = read_optional_i32_cell(
            bytes,
            self.keyform_color_source_begin_indices,
            index,
        )?;
        Ok(
            ArtMesh {
                name,
                is_visible,
                is_enabled,
                parent_part_indices,
                parent_deformer_indices,
                texture_indices,
                drawable_flags: DrawableFlags::new(flags),
                vertex_counts,
                keyform_color_source_begin_indices,
            },
        )
    }
}

/// An enumerator of the art meshes of a file, from the first on.
pub struct ArtMeshes<'i> {
    moc3: &'i Moc3,
    index: u32,
}

impl<'i> ArtMeshes<'i> {
    /// The file whose art meshes these are.
    pub closed spec fn source(&self) -> Moc3 {
        *self.moc3
    }

    /// The index of the art mesh that [`ArtMeshes::next`] gives next.
    pub closed spec fn cursor(&self) -> u32 {
        self.index
    }

    /// The number of art meshes, from the table of counts.
    pub open spec fn count(&self) -> u32 {
        self.source().counts().art_meshes
    }

    /// Art mesh `index` of the file.
    pub open spec fn entry(&self, index: u32) -> Result<ArtMeshView, L2Error> {
        art_mesh_entry(self.source().bytes(), self.source().tables().meshes, index)
    }

    /// An enumerator at the first art mesh of `moc3`.
    pub(crate) fn over(moc3: &'i Moc3) -> (meshes: Self)
        ensures
            meshes.source() == *moc3,
            meshes.cursor() == 0,
    {
        ArtMeshes { moc3, index: 0 }
    }

    /// Art mesh `index`, or nothing where the file has no such art mesh.
    pub fn get_art_mesh(&self, index: u32) -> (r: Option<Result<ArtMesh<'i>, L2Error>>)
        ensures
            match r {
                None => index >= self.count(),
                Some(mesh) => index < self.count() && art_mesh_agrees(mesh, self.entry(index)),
            },
    {
        if index >= self.moc3.element_count().art_meshes {
            return None;
        }
        Some(self.get_unchecked(index))
    }

    /// Art mesh `index` as the columns hold it, without a look at the number
    /// of art meshes. The read itself is checked against the buffer.
    pub fn get_unchecked(&self, index: u32) -> (r: Result<ArtMesh<'i>, L2Error>)
        ensures
            art_mesh_agrees(r, self.entry(index)),
    {
        self.moc3.art_mesh_table().get_unchecked(self.moc3.buffer(), index)
    }

    /// The next art mesh, or nothing behind the last. An art mesh that
    /// cannot be read is given as its failure, and the enumerator goes on
    /// behind it.
    pub fn next(&mut self) -> (r: Option<Result<ArtMesh<'i>, L2Error>>)
        ensures
            final(self).source() == old(self).source(),
            match r {
                None => old(self).cursor() >= old(self).count()
                    && final(self).cursor() == old(self).cursor(),
                Some(mesh) => old(self).cursor() < old(self).count()
                    && final(self).cursor() == old(self).cursor() + 1
                    && art_mesh_agrees(mesh, old(self).entry(old(self).cursor())),
            },
    {
        if self.index >= self.moc3.element_count().art_meshes {
            return None;
        }
        let result = self.get_unchecked(self.index);
        self.index = self.index + 1;
        Some(result)
    }
}

} // verus!
