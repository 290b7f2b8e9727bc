//! Parts.

use crate::cubism_v1::moc::objects::{decode_part, decode_parts, parsed_part, parsed_parts};
use crate::cubism_v1::moc::{nodes_view, ObjectData, ObjectView};
use crate::errors::L2Error;
use crate::views::views;
use vstd::prelude::*;
use vstd::slice::slice_subrange;

verus! {

/// The kinds of part.
#[derive(Debug, Clone, Copy, PartialEq, Eq, Structural)]
pub enum PartType {
    /// A part of the usual kind
    Normal,
    /// A part that is a mesh
    Mesh,
}

/// A part of a model.
#[derive(Debug, PartialEq)]
pub struct Part {
    /// The name of the part
    pub name: String,
    /// Its kind
    pub part_type: PartType,
}

/// What a [`Part`] holds.
pub struct PartView {
    pub name: Seq<char>,
    pub part_type: PartType,
}

impl View for Part {
    type V = PartView;

    open spec fn view(&self) -> PartView {
        PartView { name: self.name@, part_type: self.part_type }
    }
}

/// The parts that a node stands for: none for the null node, itself for a
/// part, those of its items in their order for an array, none for any other
/// node.
pub open spec fn parts_of(node: ObjectView) -> Seq<PartView>
    decreases node,
{
    match node {
        ObjectView::Part(part) => seq![part],
        ObjectView::ObjectArray(items) => parts_of_all(items),
        _ => Seq::empty(),
    }
}

/// The parts that the nodes of a list stand for, in the order of the list.
pub open spec fn parts_of_all(items: Seq<ObjectView>) -> Seq<PartView>
    decreases items,
{
    if items.len() == 0 {
        Seq::empty()
    } else {
        parts_of_all(items.drop_last()) + parts_of(items.last())
    }
}

/// The part record at `offset`, or the failure of an offset behind the end.
pub open spec fn part_at(bytes: Seq<u8>, offset: int) -> Result<PartView, L2Error> {
    if offset > bytes.len() {
        Err(L2Error::OutOfBounds { have: 0, need: (offset - bytes.len()) as u64 })
    } else {
        match parsed_part(bytes, offset) {
            Ok((part, _)) => Ok(part),
            Err(e) => Err(e),
        }
    }
}

impl Part {
    /// Reads the part record that lies at `offset` of `data`.
    pub fn parse(data: &[u8], offset: usize) -> (r: Result<Part, L2Error>)
        ensures
            match r {
                Ok(part) => part_at(data@, offset as int) == Ok::<PartView, L2Error>(part@),
                Err(e) => part_at(data@, offset as int) == Err::<PartView, L2Error>(e),
            },
    {
        if offset > data.len() {
            return Err(L2Error::OutOfBounds { have: 0, need: (offset - data.len()) as u64 });
        }
        let (part, _) = decode_part(data, offset)?;
        Ok(part)
    }

    /// Reads a list of parts at the start of `data`, and gives the parts with
    /// the bytes behind the list.
    pub fn parse_many(data: &[u8]) -> (r: Result<(Vec<Part>, &[u8]), L2Error>)
        ensures
            match r {
                Ok((parts, rest)) => parsed_parts(data@, 0) matches Ok((found, len)) && found
                    == views(parts@) && len <= data@.len() && rest@ == data@.skip(len as int),
                Err(e) => parsed_parts(data@, 0) == Err::<(Seq<PartView>, nat), L2Error>(e),
            },
    {
        let (parts, end) = decode_parts(data, 0)?;
        Ok((parts, slice_subrange(data, end, data.len())))
    }
}

impl ObjectData {
    /// The parts that this node stands for.
    pub fn as_parts(self) -> (parts: Vec<Part>)
        ensures
            views(parts@) == parts_of(self@),
        decreases self,
    {
        match self {
            ObjectData::Part(part) => {
                let mut parts: Vec<Part> = Vec::new();
                parts.push(part);
                assert(views(parts@) =~= seq![part@]);
                parts
            },
            ObjectData::ObjectArray(items) => {
                let mut parts: Vec<Part> = Vec::new();
                let ghost all = items@;
                let ghost kept = items;
                assert(views(parts@) =~= Seq::<PartView>::empty());
                for node in it: items
                    invariant
                        it.seq() == all,
                        kept@ == all,
                        self == ObjectData::ObjectArray(kept),
                        views(parts@) == parts_of_all(nodes_view(all.take(it.index() as int))),
                {
                    proof {
                        assert(decreases_to!(self => self->ObjectArray_0));
                        assert(decreases_to!(kept => kept[it.index() as int]));
                    }
                    let ghost before = parts@;
                    let mut found = node.as_parts();
                    let ghost added = found@;
                    parts.append(&mut found);
                    proof {
                        let done = all.take(it.index() + 1);
                        assert(nodes_view(done).drop_last() =~= nodes_view(
                            all.take(it.index() as int),
                        ));
                        assert(nodes_view(done).last() == node@);
                        assert(views(parts@) =~= views(before) + views(added));
                    }
                }
                assert(all.take(all.len() as int) =~= all);
                parts
            },
            _ => {
                let parts: Vec<Part> = Vec::new();
                assert(views(parts@) =~= Seq::<PartView>::empty());
                parts
            },
        }
    }
}

} // verus!
