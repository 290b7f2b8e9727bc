//! The parts of a model.

use crate::cubism_v3::moc3::cells::{
    flag_cell, i32_cell, name_cell, read_flag_cell, read_i32_cell, read_name_cell, record_fits,
    record_shortfall, start_record, word,
};
use crate::cubism_v3::moc3::Moc3;
use crate::errors::L2Error;
use crate::reader::le_u32;
use vstd::prelude::*;

verus! {

/// Where the record of the part columns lies.
pub const PART_OFFSETS_AT: usize = 0x4C;

/// The number of part columns.
pub const PART_SLOTS: usize = 7;

/// The offset of each column of the parts.
#[derive(Copy, Clone, Debug, PartialEq, Eq, Structural)]
pub struct PartOffsets {
    pub name: u32,
    pub is_visible: u32,
    pub is_enabled: u32,
    pub parent_part_indices: u32,
    pub keyform_binding_sources_indices: u32,
    pub keyform_sources_begin_indices: u32,
    pub keyform_sources_counts: u32,
}

/// One part, as read from the columns.
#[derive(Debug, PartialEq)]
pub struct Part<'i> {
    pub name: &'i str,
    pub is_visible: bool,
    pub is_enabled: bool,
    pub parent_part_indices: i32,
    pub keyform_sources_counts: i32,
    pub keyform_sources_begin_indices: i32,
    pub keyform_binding_sources_indices: i32,
}

/// What a [`Part`] holds.
pub struct PartView {
    pub name: Seq<char>,
    pub is_visible: bool,
    pub is_enabled: bool,
    pub parent_part_indices: i32,
    pub keyform_sources_counts: i32,
    pub keyform_sources_begin_indices: i32,
    pub keyform_binding_sources_indices: i32,
}

impl<'i> View for Part<'i> {
    type V = PartView;

    open spec fn view(&self) -> PartView {
        PartView {
            name: self.name@,
            is_visible: self.is_visible,
            is_enabled: self.is_enabled,
            parent_part_indices: self.parent_part_indices,
            keyform_sources_counts: self.keyform_sources_counts,
            keyform_sources_begin_indices: self.keyform_sources_begin_indices,
            keyform_binding_sources_indices: self.keyform_binding_sources_indices,
        }
    }
}

/// The record of the part columns: seven offsets from `0x4C` on.
pub open spec fn part_offsets(bytes: Seq<u8>) -> Result<PartOffsets, L2Error> {
    if !record_fits(bytes, 0x4C, 7) {
        Err(record_shortfall(bytes, 0x4C, 7))
    } else {
        Ok(
            PartOffsets {
                name: le_u32(bytes, 0x4C),
                keyform_binding_sources_indices: le_u32(bytes, 0x50),
                keyform_sources_begin_indices: le_u32(bytes, 0x54),
                keyform_sources_counts: le_u32(bytes, 0x58),
                is_visible: le_u32(bytes, 0x5C),
                is_enabled: le_u32(bytes, 0x60),
                parent_part_indices: le_u32(bytes, 0x64),
            },
        )
    }
}

/// Part `index`, cell by cell. The cells are read in the order below and the
/// first that fails decides the failure.
pub open spec fn part_entry(bytes: Seq<u8>, offsets: PartOffsets, index: u32) -> Result<
    PartView,
    L2Error,
> {
    let name = name_cell(bytes, offsets.name, index);
    let is_visible = flag_cell(bytes, offsets.is_visible, index);
    let is_enabled = flag_cell(bytes, offsets.is_enabled, index);
    let parent = i32_cell(bytes, offsets.parent_part_indices, index);
    let binding = i32_cell(bytes, offsets.keyform_binding_sources_indices, index);
    let begin = i32_cell(bytes, offsets.keyform_sources_begin_indices, index);
    let counts = i32_cell(bytes, offsets.keyform_sources_counts, index);
    if name is Err {
        Err(name->Err_0)
    } else if is_visible is Err {
        Err(is_visible->Err_0)
    } else if is_enabled is Err {
        Err(is_enabled->Err_0)
    } else if parent is Err {
        Err(parent->Err_0)
    } else if binding is Err {
        Err(binding->Err_0)
    } else if begin is Err {
        Err(begin->Err_0)
    } else if counts is Err {
        Err(counts->Err_0)
    } else {
        Ok(
            PartView {
                name: name->Ok_0,
                is_visible: is_visible->Ok_0,
                is_enabled: is_enabled->Ok_0,
                parent_part_indices: parent->Ok_0,
                keyform_sources_counts: counts->Ok_0,
                keyform_sources_begin_indices: begin->Ok_0,
                keyform_binding_sources_indices: binding->Ok_0,
            },
        )
    }
}

/// An entry as read is the entry that the columns hold.
pub open spec fn part_agrees(
    r: Result<Part<'_>, L2Error>,
    expected: Result<PartView, L2Error>,
) -> bool {
    match r {
        Ok(part) => expected == Ok::<PartView, L2Error>(part@),
        Err(e) => expected == Err::<PartView, L2Error>(e),
    }
}

impl PartOffsets {
    /// Reads the record of the part columns from the preamble.
    pub fn read(moc3: &[u8]) -> (r: Result<PartOffsets, L2Error>)
        ensures
            r == part_offsets(moc3@),
    {
        let at = start_record(moc3, PART_OFFSETS_AT as u64, PART_SLOTS)?;
        Ok(
            PartOffsets {
                name: word(moc3, at),
                keyform_binding_sources_indices: word(moc3, at + 4),
                keyform_sources_begin_indices: word(moc3, at + 8),
                keyform_sources_counts: word(moc3, at + 12),
                is_visible: word(moc3, at + 16),
                is_enabled: word(moc3, at + 20),
                parent_part_indices: word(moc3, at + 24),
            },
        )
    }

    /// Reads part `index` out of `bytes`, whatever the number of parts is.
    pub fn get_unchecked<'i>(&self, bytes: &'i [u8], index: u32) -> (r: Result<Part<'i>, L2Error>)
        ensures
            part_agrees(r, part_entry(bytes@, *self, index)),
    {
        let name = read_name_cell(bytes, self.name, index)?;
        let is_visible = read_flag_cell(bytes, self.is_visible, index)?;
        let is_enabled = read_flag_cell(bytes, self.is_enabled, index)?;
        let parent_part_indices = read_i32_cell(bytes, self.parent_part_indices, index)?;
        let keyform_binding_sources_indices = read_i32_cell(
            bytes,
            self.keyform_binding_sources_indices,
            index,
        )?;
        let keyform_sources_begin_indices = read_i32_cell(
            bytes,
            self.keyform_sources_begin_indices,
            index,
        )?;
        let keyform_sources_counts = read_i32_cell(bytes, self.keyform_sources_counts, index)?;
        Ok(
            Part {
                name,
                is_visible,
                is_enabled,
                parent_part_indices,
                keyform_sources_counts,
                keyform_sources_begin_indices,
                keyform_binding_sources_indices,
            },
        )
    }
}

/// An enumerator of the parts of a file, from the first on.
pub struct Parts<'i> {
    moc3: &'i Moc3,
    index: u32,
}

impl<'i> Parts<'i> {
    /// The file whose parts these are.
    pub closed spec fn source(&self) -> Moc3 {
        *self.moc3
    }

    /// The index of the part that [`Parts::next`] gives next.
    pub closed spec fn cursor(&self) -> u32 {
        self.index
    }

    /// The number of parts, from the table of counts.
    pub open spec fn count(&self) -> u32 {
        self.source().counts().parts
    }

    /// Part `index` of the file.
    pub open spec fn entry(&self, index: u32) -> Result<PartView, L2Error> {
        part_entry(self.source().bytes(), self.source().tables().parts, index)
    }

    /// An enumerator at the first part of `moc3`.
    pub(crate) fn over(moc3: &'i Moc3) -> (parts: Self)
        ensures
            parts.source() == *moc3,
            parts.cursor() == 0,
    {
        Parts { moc3, index: 0 }
    }

    /// Part `index`, or nothing where the file has no such part.
    pub fn get_part(&self, index: u32) -> (r: Option<Result<Part<'i>, L2Error>>)
        ensures
            match r {
                None => index >= self.count(),
                Some(part) => index < self.count() && part_agrees(part, self.entry(index)),
            },
    {
        if index >= self.moc3.element_count().parts {
            return None;
        }
        Some(self.get_unchecked(index))
    }

    /// Part `index` as the columns hold it, without a look at the number of
    /// parts. The read itself is checked against the buffer.
    pub fn get_unchecked(&self, index: u32) -> (r: Result<Part<'i>, L2Error>)
        ensures
            part_agrees(r, self.entry(index)),
    {
        self.moc3.part_table().get_unchecked(self.moc3.buffer(), index)
    }

    /// The next part, or nothing behind the last. A part that cannot be read
    /// is given as its failure, and the enumerator goes on behind it.
    pub fn next(&mut self) -> (r: Option<Result<Part<'i>, L2Error>>)
        ensures
            final(self).source() == old(self).source(),
            match r {
                None => old(self).cursor() >= old(self).count()
                    && final(self).cursor() == old(self).cursor(),
                Some(part) => old(self).cursor() < old(self).count()
                    && final(self).cursor() == old(self).cursor() + 1
                    && part_agrees(part, old(self).entry(old(self).cursor())),
            },
    {
        if self.index >= self.moc3.element_count().parts {
            return None;
        }
        let result = self.get_unchecked(self.index);
        self.index = self.index + 1;
        Some(result)
    }
}

} // verus!
