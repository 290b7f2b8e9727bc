//! Pivots and pivot managers.

use crate::cubism_v1::moc::objects::{
    decode_pivot, decode_pivot_manager, parsed_pivot, parsed_pivot_manager,
};
use crate::cubism_v1::moc::{nodes_view, ObjectData, ObjectView};
use crate::errors::L2Error;
use crate::reader::MocReader;
use crate::views::views;
use vstd::prelude::*;

verus! {

/// A pivot: the values of a parameter at which a deformer has a keyform. The
/// values are the bit patterns of 32-bit floats.
#[derive(Debug, PartialEq)]
pub struct Pivot {
    pub id: String,
    pub count: u32,
    pub values: Vec<u32>,
}

/// What a [`Pivot`] holds.
pub struct PivotView {
    pub id: Seq<char>,
    pub count: u32,
    pub values: Seq<u32>,
}

impl View for Pivot {
    type V = PivotView;

    open spec fn view(&self) -> PivotView {
        PivotView { id: self.id@, count: self.count, values: self.values@ }
    }
}

/// The pivots of one deformer.
#[derive(Debug, PartialEq)]
pub struct PivotManager {
    pub items: Vec<Pivot>,
}

/// What a [`PivotManager`] holds.
pub struct PivotManagerView {
    pub items: Seq<PivotView>,
}

impl View for PivotManager {
    type V = PivotManagerView;

    open spec fn view(&self) -> PivotManagerView {
        PivotManagerView { items: views(self.items@) }
    }
}

/// The pivots that a node stands for: none for the null node, itself for a
/// pivot, its items for a pivot manager, those of its items in their order
/// for an array, none for any other node.
pub open spec fn pivots_of(node: ObjectView) -> Seq<PivotView>
    decreases node,
{
    match node {
        ObjectView::Pivot(pivot) => seq![pivot],
        ObjectView::PivotManager(manager) => manager.items,
        ObjectView::ObjectArray(items) => pivots_of_all(items),
        _ => Seq::empty(),
    }
}

/// The pivots that the nodes of a list stand for, in the order of the list.
pub open spec fn pivots_of_all(items: Seq<ObjectView>) -> Seq<PivotView>
    decreases items,
{
    if items.len() == 0 {
        Seq::empty()
    } else {
        pivots_of_all(items.drop_last()) + pivots_of(items.last())
    }
}

impl ObjectData {
    /// The pivots that this node stands for.
    pub fn as_pivots(self) -> (pivots: Vec<Pivot>)
        ensures
            views(pivots@) == pivots_of(self@),
        decreases self,
    {
        match self {
            ObjectData::Pivot(pivot) => {
                let mut pivots: Vec<Pivot> = Vec::new();
                pivots.push(pivot);
                assert(views(pivots@) =~= seq![pivot@]);
                pivots
            },
            ObjectData::PivotManager(manager) => manager.items,
            ObjectData::ObjectArray(items) => {
                let mut pivots: Vec<Pivot> = Vec::new();
                let ghost all = items@;
                let ghost kept = items;
                assert(views(pivots@) =~= Seq::<PivotView>::empty());
                for node in it: items
                    invariant
                        it.seq() == all,
                        kept@ == all,
                        self == ObjectData::ObjectArray(kept),
                        views(pivots@) == pivots_of_all(
                            nodes_view(all.take(it.index() as int)),
                        ),
                {
                    proof {
                        assert(decreases_to!(self => self->ObjectArray_0));
                        assert(decreases_to!(kept => kept[it.index() as int]));
                    }
                    let ghost before = pivots@;
                    let mut found = node.as_pivots();
                    let ghost added = found@;
                    pivots.append(&mut found);
                    proof {
                        let done = all.take(it.index() + 1);
                        assert(nodes_view(done).drop_last() =~= nodes_view(
                            all.take(it.index() as int),
                        ));
                        assert(nodes_view(done).last() == node@);
                        assert(views(pivots@) =~= views(before) + views(added));
                    }
                }
                assert(all.take(all.len() as int) =~= all);
                pivots
            },
            _ => {
                let pivots: Vec<Pivot> = Vec::new();
                assert(views(pivots@) =~= Seq::<PivotView>::empty());
                pivots
            },
        }
    }
}

impl Pivot {
    /// Reads a pivot at the cursor.
    pub fn read_object(reader: &mut MocReader) -> (r: Result<Pivot, L2Error>)
        requires
            old(reader).wf(),
        ensures
            old(reader).reads_in_view(
                final(reader),
                r,
                parsed_pivot(old(reader).bytes(), old(reader).position()),
            ),
    {
        let decoded = decode_pivot(reader.input(), reader.offset());
        reader.accept(decoded)
    }
}

impl PivotManager {
    /// Reads a pivot manager at the cursor.
    pub fn read_object(reader: &mut MocReader) -> (r: Result<PivotManager, L2Error>)
        requires
            old(reader).wf(),
        ensures
            old(reader).reads_in_view(
                final(reader),
                r,
                parsed_pivot_manager(
                    old(reader).bytes(),
                    old(reader).position(),
                    old(reader).file_version(),
                ),
            ),
    {
        let decoded = decode_pivot_manager(reader.input(), reader.offset(), reader.version());
        reader.accept(decoded)
    }
}

} // verus!
