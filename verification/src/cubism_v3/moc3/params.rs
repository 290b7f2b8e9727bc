//! The parameters of a model.

use crate::cubism_v3::moc3::cells::{
    flag_cell, i32_cell, name_cell, optional_i32_cell, optional_u32_cell, read_flag_cell,
    read_i32_cell, read_name_cell, read_optional_i32_cell, read_optional_u32_cell, read_u32_cell,
    record_fits, record_shortfall, start_record, u32_cell, word,
};
use crate::cubism_v3::moc3::{appended_at, widening, Moc3};
use crate::errors::L2Error;
use crate::helpers::MocVersion;
use crate::reader::le_u32;
use vstd::prelude::*;

verus! {

/// Where the record of the parameter columns of generation 3.0 lies.
pub const PARAMETER_OFFSETS_AT: usize = 0x108;

/// Where the record of the columns that generation 4.0 appended lies, before
/// any widening.
pub const PARAMETER_KEYS_AT: u32 = 0x1DC;

/// Where the record of the columns that generation 4.2 appended lies, before
/// any widening.
pub const PARAMETER_BLEND_AT: u32 = 0x208;

/// The offset of each column of the parameters. A column that the file's
/// generation does not have has no offset.
#[derive(Copy, Clone, Debug, PartialEq, Eq, Structural)]
pub struct ParametersOffsets {
    pub name: u32,
    pub max_value: u32,
    pub min_value: u32,
    pub default_value: u32,
    pub is_repeat: u32,
    pub decimal_places: u32,
    pub binding_sources_begin: u32,
    pub binding_sources_count: u32,
    /// Since generation 4.0.
    pub key_source_begin_indices: Option<u32>,
    /// Since generation 4.0.
    pub key_source_counts: Option<u32>,
    /// Since generation 4.2.
    pub parameter_type: Option<u32>,
    /// Since generation 4.2.
    pub blend_shape_parameter_binding_sources_begin_indices: Option<u32>,
    /// Since generation 4.2.
    pub blend_shape_parameter_binding_sources_counts: Option<u32>,
}

/// One parameter, as read from the columns. The three values are the bit
/// patterns of 32-bit floats.
#[derive(Clone, Copy, Debug, PartialEq)]
pub struct Parameter<'i> {
    pub name: &'i str,
    pub max_value: u32,
    pub min_value: u32,
    pub default_value: u32,
    pub is_repeat: bool,
    pub decimal_places: u32,
    pub binding_sources_begin: i32,
    pub binding_sources_count: i32,
    pub key_source_begin_indices: Option<i32>,
    pub key_source_counts: Option<i32>,
    pub parameter_type: Option<u32>,
    pub blend_shape_parameter_binding_sources_begin_indices: Option<i32>,
    pub blend_shape_parameter_binding_sources_counts: Option<i32>,
}

/// What a [`Parameter`] holds.
pub struct ParameterView {
    pub name: Seq<char>,
    pub max_value: u32,
    pub min_value: u32,
    pub default_value: u32,
    pub is_repeat: bool,
    pub decimal_places: u32,
    pub binding_sources_begin: i32,
    pub binding_sources_count: i32,
    pub key_source_begin_indices: Option<i32>,
    pub key_source_counts: Option<i32>,
    pub parameter_type: Option<u32>,
    pub blend_shape_parameter_binding_sources_begin_indices: Option<i32>,
    pub blend_shape_parameter_binding_sources_counts: Option<i32>,
}

impl<'i> View for Parameter<'i> {
    type V = ParameterView;

    open spec fn view(&self) -> ParameterView {
        ParameterView {
            name: self.name@,
            max_value: self.max_value,
            min_value: self.min_value,
            default_value: self.default_value,
            is_repeat: self.is_repeat,
            decimal_places: self.decimal_places,
            binding_sources_begin: self.binding_sources_begin,
            binding_sources_count: self.binding_sources_count,
            key_source_begin_indices: self.key_source_begin_indices,
            key_source_counts: self.key_source_counts,
            parameter_type: self.parameter_type,
            blend_shape_parameter_binding_sources_begin_indices: self
                .blend_shape_parameter_binding_sources_begin_indices,
            blend_shape_parameter_binding_sources_counts: self
                .blend_shape_parameter_binding_sources_counts,
        }
    }
}

/// The records of the parameter columns: eight offsets from `0x108` on in
/// every generation, two more at `0x1DC` from generation 4.0 on, three more at
/// `0x208` from generation 4.2 on, the last two records moved by the widening
/// of generation 5.0.
pub open spec fn parameter_offsets(bytes: Seq<u8>, version: MocVersion) -> Result<
    ParametersOffsets,
    L2Error,
> {
    let keys_at = appended_at(0x1DC, version);
    let blend_at = appended_at(0x208, version);
    let has_keys = version.spec_rank() >= MocVersion::V40.spec_rank();
    let has_blend = version.spec_rank() >= MocVersion::V42.spec_rank();
    if !record_fits(bytes, 0x108, 8) {
        Err(record_shortfall(bytes, 0x108, 8))
    } else if has_keys && !record_fits(bytes, keys_at, 2) {
        Err(record_shortfall(bytes, keys_at, 2))
    } else if has_blend && !record_fits(bytes, blend_at, 3) {
        Err(record_shortfall(bytes, blend_at, 3))
    } else {
        Ok(
            ParametersOffsets {
                name: le_u32(bytes, 0x108),
                max_value: le_u32(bytes, 0x10C),
                min_value: le_u32(bytes, 0x110),
                default_value: le_u32(bytes, 0x114),
                is_repeat: le_u32(bytes, 0x118),
                decimal_places: le_u32(bytes, 0x11C),
                binding_sources_begin: le_u32(bytes, 0x120),
                binding_sources_count: le_u32(bytes, 0x124),
                key_source_begin_indices: if has_keys {
                    Some(le_u32(bytes, keys_at))
                } else {
                    None
                },
                key_source_counts: if has_keys {
                    Some(le_u32(bytes, keys_at + 4))
                } else {
                    None
                },
                parameter_type: if has_blend {
                    Some(le_u32(bytes, blend_at))
                } else {
                    None
                },
                blend_shape_parameter_binding_sources_begin_indices: if has_blend {
                    Some(le_u32(bytes, blend_at + 4))
                } else {
                    None
                },
                blend_shape_parameter_binding_sources_counts: if has_blend {
                    Some(le_u32(bytes, blend_at + 8))
                } else {
                    None
                },
            },
        )
    }
}

/// Parameter `index`, cell by cell. The cells are read in the order below and
/// the first that fails decides the failure.
pub open spec fn parameter_entry(bytes: Seq<u8>, offsets: ParametersOffsets, index: u32) -> Result<
    ParameterView,
    L2Error,
> {
    let name = name_cell(bytes, offsets.name, index);
    let max_value = u32_cell(bytes, offsets.max_value, index);
    let min_value = u32_cell(bytes, offsets.min_value, index);
    let default_value = u32_cell(bytes, offsets.default_value, index);
    let is_repeat = flag_cell(bytes, offsets.is_repeat, index);
    let decimal_places = u32_cell(bytes, offsets.decimal_places, index);
    let begin = i32_cell(bytes, offsets.binding_sources_begin, index);
    let count = i32_cell(bytes, offsets.binding_sources_count, index);
    let key_begin = optional_i32_cell(bytes, offsets.key_source_begin_indices, index);
    let key_counts = optional_i32_cell(bytes, offsets.key_source_counts, index);
    let kind = optional_u32_cell(bytes, offsets.parameter_type, index);
    let blend_begin = optional_i32_cell(
        bytes,
        offsets.blend_shape_parameter_binding_sources_begin_indices,
        index,
    );
    let blend_counts = optional_i32_cell(
        bytes,
        offsets.blend_shape_parameter_binding_sources_counts,
        index,
    );
    if name is Err {
        Err(name->Err_0)
    } else if max_value is Err {
        Err(max_value->Err_0)
    } else if min_value is Err {
        Err(min_value->Err_0)
    } else if default_value is Err {
        Err(default_value->Err_0)
    } else if is_repeat is Err {
        Err(is_repeat->Err_0)
    } else if decimal_places is Err {
        Err(decimal_places->Err_0)
    } else if begin is Err {
        Err(begin->Err_0)
    } else if count is Err {
        Err(count->Err_0)
    } else if key_begin is Err {
        Err(key_begin->Err_0)
    } else if key_counts is Err {
        Err(key_counts->Err_0)
    } else if kind is Err {
        Err(kind->Err_0)
    } else if blend_begin is Err {
        Err(blend_begin->Err_0)
    } else if blend_counts is Err {
        Err(blend_counts->Err_0)
    } else {
        Ok(
            ParameterView {
                name: name->Ok_0,
                max_value: max_value->Ok_0,
                min_value: min_value->Ok_0,
                default_value: default_value->Ok_0,
                is_repeat: is_repeat->Ok_0,
                decimal_places: decimal_places->Ok_0,
                binding_sources_begin: begin->Ok_0,
                binding_sources_count: count->Ok_0,
                key_source_begin_indices: key_begin->Ok_0,
                key_source_counts: key_counts->Ok_0,
                parameter_type: kind->Ok_0,
                blend_shape_parameter_binding_sources_begin_indices: blend_begin->Ok_0,
                blend_shape_parameter_binding_sources_counts: blend_counts->Ok_0,
            },
        )
    }
}

/// An entry as read is the entry that the columns hold.
pub open spec fn parameter_agrees(
    r: Result<Parameter<'_>, L2Error>,
    expected: Result<ParameterView, L2Error>,
) -> bool {
    match r {
        Ok(parameter) => expected == Ok::<ParameterView, L2Error>(parameter@),
        Err(e) => expected == Err::<ParameterView, L2Error>(e),
    }
}

impl ParametersOffsets {
    /// Reads the records of the parameter columns from the preamble of a file
    /// of the given generation.
    pub fn read(moc3: &[u8], version: MocVersion) -> (r: Result<ParametersOffsets, L2Error>)
        ensures
            r == parameter_offsets(moc3@, version),
    {
        let at = start_record(moc3, PARAMETER_OFFSETS_AT as u64, 8)?;
        let shift = widening(version);
        let mut key_source_begin_indices: Option<u32> = None;
        let mut key_source_counts: Option<u32> = None;
        if version.at_least(MocVersion::V40) {
            let keys = start_record(moc3, (PARAMETER_KEYS_AT + shift) as u64, 2)?;
            key_source_begin_indices = Some(word(moc3, keys));
            key_source_counts = Some(word(moc3, keys + 4));
        }
        let mut parameter_type: Option<u32> = None;
        let mut blend_begin: Option<u32> = None;
        let mut blend_counts: Option<u32> = None;
        if version.at_least(MocVersion::V42) {
            let blend = start_record(moc3, (PARAMETER_BLEND_AT + shift) as u64, 3)?;
            parameter_type = Some(word(moc3, blend));
            blend_begin = Some(word(moc3, blend + 4));
            blend_counts = Some(word(moc3, blend + 8));
        }
        Ok(
            ParametersOffsets {
                name: word(moc3, at),
                max_value: word(moc3, at + 4),
                min_value: word(moc3, at + 8),
                default_value: word(moc3, at + 12),
                is_repeat: word(moc3, at + 16),
                decimal_places: word(moc3, at + 20),
                binding_sources_begin: word(moc3, at + 24),
                binding_sources_count: word(moc3, at + 28),
                key_source_begin_indices,
                key_source_counts,
                parameter_type,
                blend_shape_parameter_binding_sources_begin_indices: blend_begin,
                blend_shape_parameter_binding_sources_counts: blend_counts,
            },
        )
    }

    /// Reads parameter `index` out of `bytes`, whatever the number of
    /// parameters is.
    pub fn get_unchecked<'i>(&self, bytes: &'i [u8], index: u32) -> (r: Result<
        Parameter<'i>,
        L2Error,
    >)
        ensures
            parameter_agrees(r, parameter_entry(bytes@, *self, index)),
    {
        let name = read_name_cell(bytes, self.name, index)?;
        let max_value = read_u32_cell(bytes, self.max_value, index)?;
        let min_value = read_u32_cell(bytes, self.min_value, index)?;
        let default_value = read_u32_cell(bytes, self.default_value, index)?;
        let is_repeat = read_flag_cell(bytes, self.is_repeat, index)?;
        let decimal_places = read_u32_cell(bytes, self.decimal_places, index)?;
        let binding_sources_begin = read_i32_cell(bytes, self.binding_sources_begin, index)?;
        let binding_sources_count = read_i32_cell(bytes, self.binding_sources_count, index)?;
        let key_source_begin_indices = read_optional_i32_cell(
            bytes,
            self.key_source_begin_indices,
            index,
        )?;
        let key_source_counts = read_optional_i32_cell(bytes, self.key_source_counts, index)?;
        let parameter_type = read_optional_u32_cell(bytes, self.parameter_type, index)?;
        let blend_begin = read_optional_i32_cell(
            bytes,
            self.blend_shape_parameter_binding_sources_begin_indices,
            index,
        )?;
        let blend_counts = read_optional_i32_cell(
            bytes,
            self.blend_shape_parameter_binding_sources_counts,
            index,
        )?;
        Ok(
            Parameter {
                name,
                max_value,
                min_value,
                default_value,
                is_repeat,
                decimal_places,
                binding_sources_begin,
                binding_sources_count,
                key_source_begin_indices,
                key_source_counts,
                parameter_type,
                blend_shape_parameter_binding_sources_begin_indices: blend_begin,
                blend_shape_parameter_binding_sources_counts: blend_counts,
            },
        )
    }
}

/// An enumerator of the parameters of a file, from the first on.
pub struct Parameters<'i> {
    moc3: &'i Moc3,
    index: u32,
}

impl<'i> Parameters<'i> {
    /// The file whose parameters these are.
    pub closed spec fn source(&self) -> Moc3 {
        *self.moc3
    }

    /// The index of the parameter that [`Parameters::next`] gives next.
    pub closed spec fn cursor(&self) -> u32 {
        self.index
    }

    /// The number of parameters, from the table of counts.
    pub open spec fn count(&self) -> u32 {
        self.source().counts().parameters
    }

    /// Parameter `index` of the file.
    pub open spec fn entry(&self, index: u32) -> Result<ParameterView, L2Error> {
        parameter_entry(self.source().bytes(), self.source().tables().params, index)
    }

    /// An enumerator at the first parameter of `moc3`.
    pub(crate) fn over(moc3: &'i Moc3) -> (parameters: Self)
        ensures
            parameters.source() == *moc3,
            parameters.cursor() == 0,
    {
        Parameters { moc3, index: 0 }
    }

    /// Parameter `index`, or nothing where the file has no such parameter.
    pub fn get_parameter(&self, index: u32) -> (r: Option<Result<Parameter<'i>, L2Error>>)
        ensures
            match r {
                None => index >= self.count(),
                Some(parameter) => index < self.count() && parameter_agrees(
                    parameter,
                    self.entry(index),
                ),
            },
    {
        if index >= self.moc3.element_count().parameters {
            return None;
        }
        Some(self.get_unchecked(index))
    }

    /// Parameter `index` as the columns hold it, without a look at the number
    /// of parameters. The read itself is checked against the buffer.
    pub fn get_unchecked(&self, index: u32) -> (r: Result<Parameter<'i>, L2Error>)
        ensures
            parameter_agrees(r, self.entry(index)),
    {
        self.moc3.parameter_table().get_unchecked(self.moc3.buffer(), index)
    }

    /// The next parameter, or nothing behind the last. A parameter that
    /// cannot be read is given as its failure, and the enumerator goes on
    /// behind it.
    pub fn next(&mut self) -> (r: Option<Result<Parameter<'i>, L2Error>>)
        ensures
            final(self).source() == old(self).source(),
            match r {
                None => old(self).cursor() >= old(self).count()
                    && final(self).cursor() == old(self).cursor(),
                Some(parameter) => old(self).cursor() < old(self).count()
                    && final(self).cursor() == old(self).cursor() + 1
                    && parameter_agrees(parameter, old(self).entry(old(self).cursor())),
            },
    {
        if self.index >= self.moc3.element_count().parameters {
            return None;
        }
        let result = self.get_unchecked(self.index);
        self.index = self.index + 1;
        Some(result)
    }
}

} // verus!
