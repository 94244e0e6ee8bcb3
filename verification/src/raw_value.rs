//! A batch of encoded component instances, held as Arrow array data.

use arrow::array::ArrayData;
use vstd::prelude::*;

verus! {

/// Arrow's untyped array: buffers, an offset and a length.
#[verifier::external_type_specification]
#[verifier::external_body]
pub struct ExArrayData(ArrayData);

/// The logical elements of an Arrow array, in order.
///
/// Each element stands as a code: two elements have the same code exactly
/// when they are the same logical value. Nothing else is said of a code.
pub uninterp spec fn array_items(data: ArrayData) -> Seq<int>;

/// `ArrayData::len` returns the number of logical elements of the array.
pub assume_specification[ ArrayData::len ](data: &ArrayData) -> (n: usize)
    ensures
        n == array_items(*data).len(),
;

/// `ArrayData::is_empty` tells whether the array has no element.
pub assume_specification[ ArrayData::is_empty ](data: &ArrayData) -> (b: bool)
    ensures
        b == (array_items(*data).len() == 0),
;

/// `ArrayData::slice` gives the `length` elements that start at `offset`,
/// sharing the buffers of the array it was taken from. It panics when
/// `offset + length` is more than the array holds, which `requires` leaves out.
pub assume_specification[ ArrayData::slice ](
    data: &ArrayData,
    offset: usize,
    length: usize,
) -> (r: ArrayData)
    requires
        offset + length <= array_items(*data).len(),
    ensures
        array_items(r) == array_items(*data).subrange(offset as int, offset + length),
;

/// A batch of encoded instances of one component.
///
/// The registry reads its length and slices it; it never decodes an element
/// and never changes one in place. The view is the sequence of elements.
pub struct RawValue {
    data: ArrayData,
}

impl View for RawValue {
    type V = Seq<int>;

    closed spec fn view(&self) -> Seq<int> {
        array_items(self.data)
    }
}

impl RawValue {
    /// The array data that the batch holds.
    pub closed spec fn spec_data(&self) -> ArrayData {
        self.data
    }

    /// The batch made of `data`.
    pub fn new(data: ArrayData) -> (r: Self)
        ensures
            r.spec_data() == data,
            r@ == array_items(data),
    {
        RawValue { data }
    }

    /// The array data of the batch.
    pub fn data(&self) -> (d: &ArrayData)
        ensures
            *d == self.spec_data(),
            array_items(*d) == self@,
    {
        &self.data
    }

    /// Gives the array data back.
    pub fn into_data(self) -> (d: ArrayData)
        ensures
            d == self.spec_data(),
            array_items(d) == self@,
    {
        self.data
    }

    /// The number of instances in the batch.
    pub fn len(&self) -> (n: usize)
        ensures
            n == self@.len(),
    {
        self.data.len()
    }

    /// Whether the batch holds no instance.
    pub fn is_empty(&self) -> (b: bool)
        ensures
            b == (self@.len() == 0),
    {
        self.data.is_empty()
    }

    /// The `length` instances that start at `offset`, without copying any.
    pub fn slice(&self, offset: usize, length: usize) -> (r: Self)
        requires
            offset + length <= self@.len(),
        ensures
            r@ == self@.subrange(offset as int, offset + length),
    {
        RawValue { data: self.data.slice(offset, length) }
    }

    /// The batch that holds the instance at `index` alone, or `None` when the
    /// batch has no instance there.
    pub fn element(&self, index: usize) -> (r: Option<Self>)
        ensures
            r.is_some() == (index < self@.len()),
            r matches Some(e) ==> e@ == seq![self@[index as int]],
    {
        if index < self.data.len() {
            let e = self.slice(index, 1);
            assert(e@ =~= seq![self@[index as int]]);
            Some(e)
        } else {
            None
        }
    }
}

} // verus!
