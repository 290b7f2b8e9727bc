//! Lists and their views.

use vstd::prelude::*;

verus! {

/// The views of the items of a list, in the order of the list.
pub open spec fn views<T: View>(items: Seq<T>) -> Seq<T::V> {
    items.map_values(|item: T| item@)
}

} // verus!
