//! Affine transforms.

use crate::cubism_v1::moc::objects::{decode_affine, parsed_affine};
use crate::cubism_v1::moc::{nodes_view, ObjectData, ObjectView};
use crate::errors::L2Error;
use crate::reader::MocReader;
use vstd::prelude::*;

verus! {

/// An affine transform. The five numbers are the bit patterns of 32-bit
/// floats. The two reflections are in the file from version 10 on; before
/// that, a transform reflects nothing.
#[derive(Debug, Clone, Copy, PartialEq, Eq, Structural)]
pub struct Affine {
    pub origin_x: u32,
    pub origin_y: u32,
    pub scale_x: u32,
    pub scale_y: u32,
    pub rotation: u32,
    pub reflect_x: bool,
    pub reflect_y: bool,
}

/// The transforms that a node stands for: none for the null node, itself for
/// a transform, those of its items in their order for an array, none for
/// any other node.
pub open spec fn affines_of(node: ObjectView) -> Seq<Affine>
    decreases node,
{
    match node {
        ObjectView::Affine(affine) => seq![affine],
        ObjectView::ObjectArray(items) => affines_of_all(items),
        _ => Seq::empty(),
    }
}

/// The transforms that the nodes of a list stand for, in the order of the
/// list.
pub open spec fn affines_of_all(items: Seq<ObjectView>) -> Seq<Affine>
    decreases items,
{
    if items.len() == 0 {
        Seq::empty()
    } else {
        affines_of_all(items.drop_last()) + affines_of(items.last())
    }
}

impl Affine {
    /// Reads a transform at the cursor.
    pub fn read_object(reader: &mut MocReader) -> (r: Result<Affine, L2Error>)
        requires
            old(reader).wf(),
        ensures
            old(reader).reads(
                final(reader),
                r,
                parsed_affine(
                    old(reader).bytes(),
                    old(reader).position(),
                    old(reader).file_version(),
                ),
            ),
    {
        let decoded = decode_affine(reader.input(), reader.offset(), reader.version());
        reader.accept(decoded)
    }
}

impl ObjectData {
    /// The transforms that this node stands for.
    pub fn as_affine(self) -> (affines: Vec<Affine>)
        ensures
            affines@ == affines_of(self@),
        decreases self,
    {
        match self {
            ObjectData::Affine(affine) => {
                let mut affines: Vec<Affine> = Vec::new();
                affines.push(affine);
                affines
            },
            ObjectData::ObjectArray(items) => {
                let mut affines: Vec<Affine> = Vec::new();
                let ghost all = items@;
                let ghost kept = items;
                for node in it: items
                    invariant
                        it.seq() == all,
                        kept@ == all,
                        self == ObjectData::ObjectArray(kept),
                        affines@ == affines_of_all(
                            nodes_view(all.take(it.index() as int)),
                        ),
                {
                    proof {
                        assert(decreases_to!(self => self->ObjectArray_0));
                        assert(decreases_to!(kept => kept[it.index() as int]));
                    }
                    let mut found = node.as_affine();
                    affines.append(&mut found);
                    proof {
                        let done = all.take(it.index() + 1);
                        assert(nodes_view(done).drop_last() =~= nodes_view(
                            all.take(it.index() as int),
                        ));
                        assert(nodes_view(done).last() == node@);
                    }
                }
                assert(all.take(all.len() as int) =~= all);
                affines
            },
            _ => Vec::new(),
        }
    }
}

} // verus!
