//! The table of element counts.

use crate::cubism_v3::moc3::cells::{record_fits, record_shortfall, start_record, word};
use crate::errors::L2Error;
use crate::reader::le_u32;
use vstd::prelude::*;

verus! {

/// The number of counts in the table.
pub const COUNT_SLOTS: usize = 35;

/// How many elements of each category a file holds. Every bound of an
/// enumeration comes from here.
#[derive(Copy, Clone, Debug, PartialEq, Eq, Structural)]
pub struct ElementCountTable {
    /// Number of parts
    pub parts: u32,
    /// Number of deformers
    pub deformers: u32,
    /// Number of warp deformers
    pub warp_deformers: u32,
    /// Number of rotation deformers
    pub rotation_deformers: u32,
    /// Number of art meshes
    pub art_meshes: u32,
    /// Number of parameters
    pub parameters: u32,
    /// Number of part keyforms
    pub part_keyforms: u32,
    /// Number of warp deformer keyforms
    pub warp_deformer_keyforms: u32,
    /// Number of rotation deformer keyforms
    pub rotation_deformer_keyforms: u32,
    /// Number of art mesh keyforms
    pub art_mesh_keyforms: u32,
    /// Number of keyform positions
    pub keyform_positions: u32,
    /// Number of parameter binding indices
    pub parameter_binding_indices: u32,
    /// Number of keyform bindings
    pub keyform_bindings: u32,
    /// Number of parameter bindings
    pub parameter_bindings: u32,
    /// Number of keys
    pub keys: u32,
    /// Number of UVs
    pub uvs: u32,
    /// Number of position indices
    pub position_indices: u32,
    /// Number of drawable masks
    pub drawable_masks: u32,
    /// Number of draw order groups
    pub draw_order_groups: u32,
    /// Number of draw order group objects
    pub draw_order_group_objects: u32,
    /// Number of glues
    pub glue: u32,
    /// Number of glue infos
    pub glue_info: u32,
    /// Number of glue keyforms
    pub glue_keyforms: u32,
    /// Number of keyform multiply colors
    pub keyform_multiply_colors: u32,
    /// Number of keyform screen colors
    pub keyform_screen_colors: u32,
    /// Number of blend shape parameter bindings
    pub blend_shape_parameter_bindings: u32,
    /// Number of blend shape keyform bindings
    pub blend_shape_keyform_bindings: u32,
    /// Number of blend shapes of warp deformers
    pub blend_shapes_warp_deformers: u32,
    /// Number of blend shapes of art meshes
    pub blend_shapes_art_meshes: u32,
    /// Number of blend shape constraint indices
    pub blend_shape_constraint_indices: u32,
    /// Number of blend shape constraints
    pub blend_shape_constraints: u32,
    /// Number of blend shape constraint values
    pub blend_shape_constraint_values: u32,
    /// Number of blend shapes of parts
    pub blend_shapes_parts: u32,
    /// Number of blend shapes of rotation deformers
    pub blend_shapes_rotation_deformers: u32,
    /// Number of blend shapes of glues
    pub blend_shapes_glue: u32,
}

/// The table of counts that lies at offset `at`: 35 numbers in a row.
pub open spec fn count_table(bytes: Seq<u8>, at: int) -> Result<ElementCountTable, L2Error> {
    if !record_fits(bytes, at, 35) {
        Err(record_shortfall(bytes, at, 35))
    } else {
        Ok(
            ElementCountTable {
                parts: le_u32(bytes, at + 0),
                deformers: le_u32(bytes, at + 4),
                warp_deformers: le_u32(bytes, at + 8),
                rotation_deformers: le_u32(bytes, at + 12),
                art_meshes: le_u32(bytes, at + 16),
                parameters: le_u32(bytes, at + 20),
                part_keyforms: le_u32(bytes, at + 24),
                warp_deformer_keyforms: le_u32(bytes, at + 28),
                rotation_deformer_keyforms: le_u32(bytes, at + 32),
                art_mesh_keyforms: le_u32(bytes, at + 36),
                keyform_positions: le_u32(bytes, at + 40),
                parameter_binding_indices: le_u32(bytes, at + 44),
                keyform_bindings: le_u32(bytes, at + 48),
                parameter_bindings: le_u32(bytes, at + 52),
                keys: le_u32(bytes, at + 56),
                uvs: le_u32(bytes, at + 60),
                position_indices: le_u32(bytes, at + 64),
                drawable_masks: le_u32(bytes, at + 68),
                draw_order_groups: le_u32(bytes, at + 72),
                draw_order_group_objects: le_u32(bytes, at + 76),
                glue: le_u32(bytes, at + 80),
                glue_info: le_u32(bytes, at + 84),
                glue_keyforms: le_u32(bytes, at + 88),
                keyform_multiply_colors: le_u32(bytes, at + 92),
                keyform_screen_colors: le_u32(bytes, at + 96),
                blend_shape_parameter_bindings: le_u32(bytes, at + 100),
                blend_shape_keyform_bindings: le_u32(bytes, at + 104),
                blend_shapes_warp_deformers: le_u32(bytes, at + 108),
                blend_shapes_art_meshes: le_u32(bytes, at + 112),
                blend_shape_constraint_indices: le_u32(bytes, at + 116),
                blend_shape_constraints: le_u32(bytes, at + 120),
                blend_shape_constraint_values: le_u32(bytes, at + 124),
                blend_shapes_parts: le_u32(bytes, at + 128),
                blend_shapes_rotation_deformers: le_u32(bytes, at + 132),
                blend_shapes_glue: le_u32(bytes, at + 136),
            },
        )
    }
}

impl ElementCountTable {
    /// Reads the table of counts at offset `at`.
    pub fn read(bytes: &[u8], at: u32) -> (r: Result<ElementCountTable, L2Error>)
        ensures
            r == count_table(bytes@, at as int),
    {
        let at = start_record(bytes, at as u64, COUNT_SLOTS)?;
        Ok(
            ElementCountTable {
                parts: word(bytes, at + 0),
                deformers: word(bytes, at + 4),
                warp_deformers: word(bytes, at + 8),
                rotation_deformers: word(bytes, at + 12),
                art_meshes: word(bytes, at + 16),
                parameters: word(bytes, at + 20),
                part_keyforms: word(bytes, at + 24),
                warp_deformer_keyforms: word(bytes, at + 28),
                rotation_deformer_keyforms: word(bytes, at + 32),
                art_mesh_keyforms: word(bytes, at + 36),
                keyform_positions: word(bytes, at + 40),
                parameter_binding_indices: word(bytes, at + 44),
                keyform_bindings: word(bytes, at + 48),
                parameter_bindings: word(bytes, at + 52),
                keys: word(bytes, at + 56),
                uvs: word(bytes, at + 60),
                position_indices: word(bytes, at + 64),
                drawable_masks: word(bytes, at + 68),
                draw_order_groups: word(bytes, at + 72),
                draw_order_group_objects: word(bytes, at + 76),
                glue: word(bytes, at + 80),
                glue_info: word(bytes, at + 84),
                glue_keyforms: word(bytes, at + 88),
                keyform_multiply_colors: word(bytes, at + 92),
                keyform_screen_colors: word(bytes, at + 96),
                blend_shape_parameter_bindings: word(bytes, at + 100),
                blend_shape_keyform_bindings: word(bytes, at + 104),
                blend_shapes_warp_deformers: word(bytes, at + 108),
                blend_shapes_art_meshes: word(bytes, at + 112),
                blend_shape_constraint_indices: word(bytes, at + 116),
                blend_shape_constraints: word(bytes, at + 120),
                blend_shape_constraint_values: word(bytes, at + 124),
                blend_shapes_parts: word(bytes, at + 128),
                blend_shapes_rotation_deformers: word(bytes, at + 132),
                blend_shapes_glue: word(bytes, at + 136),
            },
        )
    }
}

} // verus!
