//! What the two sides of the boundary agree on about the record that
//! stands for a returned vector.

use vstd::prelude::*;

verus! {

/// What one word of the record of a returned vector holds.
#[derive(Debug, Copy, Clone, PartialEq, Eq, Structural)]
pub enum RecordField {
    /// The address of the vector's data.
    Pointer,
    /// The number of elements that the vector holds.
    Length,
    /// The number of elements that the vector has room for.
    Capacity,
}

/// The order of the words of the record of a returned vector. The module
/// writes them in this order, and the host reads them by their position.
pub open spec fn record_fields() -> Seq<RecordField> {
    seq![RecordField::Pointer, RecordField::Length, RecordField::Capacity]
}

/// The order of the words of the record of a returned vector.
pub fn record_layout() -> (fields: [RecordField; 3])
    ensures
        fields@ == record_fields(),
{
    let fields = [RecordField::Pointer, RecordField::Length, RecordField::Capacity];
    assert(fields@ =~= record_fields());
    fields
}

} // verus!
