//! The list of byte ranges that a vectored span decodes to, kept inline while
//! it is short.
//!
//! The list is a `smallvec::SmallVec`. What is said here of that vector is
//! taken from its source and not proved: the declarations of [`span_items`]
//! and [`span_room`], and the contracts of the four functions whose names
//! begin with `spans_`.
use smallvec::SmallVec;
use vstd::prelude::*;

verus! {

/// How many ranges a [`SpanList`] holds without a heap allocation.
pub const INLINE_SPANS: usize = 4;

/// Byte ranges in the order in which their descriptors stood in guest
/// memory. Backed by `smallvec::SmallVec` over an array of four: up to four
/// ranges are stored inline, more move to the heap.
#[verifier::external_body]
pub struct SpanList {
    spans: SmallVec<[(u32, u32); 4]>,
}

/// The ranges that the list holds, first to last.
pub uninterp spec fn span_items(spans: SpanList) -> Seq<(u32, u32)>;

/// The number of items that the vector has room for: the larger of the four
/// inline places and the count that it was made with. `SmallVec::capacity`
/// reports it.
pub uninterp spec fn span_room(spans: SpanList) -> nat;

/// `SmallVec::with_capacity`: an empty vector. It stays inline, with room for
/// the backing array's four items, unless more than four are asked for; then
/// it allocates room for exactly `count`. The bound keeps the allocation's
/// size, eight bytes an item, within what a layout can describe.
#[verifier::external_body]
pub(crate) fn spans_with_capacity(count: usize) -> (spans: SpanList)
    requires
        count * 8 <= isize::MAX,
    ensures
        span_items(spans) == Seq::<(u32, u32)>::empty(),
        span_room(spans) == if count > 4 { count as nat } else { 4 },
{
    SpanList { spans: SmallVec::with_capacity(count) }
}

/// `SmallVec::push` where there is room: the item is appended and the vector
/// does not grow.
#[verifier::external_body]
pub(crate) fn spans_push(spans: &mut SpanList, span: (u32, u32))
    requires
        span_items(*old(spans)).len() < span_room(*old(spans)),
    ensures
        span_items(*final(spans)) == span_items(*old(spans)).push(span),
        span_room(*final(spans)) == span_room(*old(spans)),
{
    spans.spans.push(span)
}

/// `SmallVec::spilled`: whether the items live on the heap, which is so
/// exactly when the room exceeds the backing array's four items.
#[verifier::external_body]
fn spans_spilled(spans: &SpanList) -> (spilled: bool)
    ensures
        spilled == (span_room(*spans) > 4),
{
    spans.spans.spilled()
}

/// `SmallVec::as_slice`: the items as one contiguous slice.
#[verifier::external_body]
fn spans_as_slice(spans: &SpanList) -> (items: &[(u32, u32)])
    ensures
        items@ == span_items(*spans),
{
    spans.spans.as_slice()
}

impl View for SpanList {
    type V = Seq<(u32, u32)>;

    /// The ranges, each as the offsets of its first byte and of the byte
    /// after its last.
    open spec fn view(&self) -> Seq<(u32, u32)> {
        span_items(*self)
    }
}

impl SpanList {
    /// Whether the ranges live on the heap rather than inline.
    pub open spec fn on_heap(&self) -> bool {
        span_room(*self) > INLINE_SPANS
    }

    /// The number of ranges.
    pub fn len(&self) -> (count: usize)
        ensures
            count == self@.len(),
    {
        spans_as_slice(self).len()
    }

    /// The range at `index`, if there is one.
    pub fn get(&self, index: usize) -> (span: Option<(u32, u32)>)
        ensures
            span == if index < self@.len() {
                Some(self@[index as int])
            } else {
                None
            },
    {
        let items = spans_as_slice(self);
        if index < items.len() {
            Some(items[index])
        } else {
            None
        }
    }

    /// The ranges as one contiguous sequence, in order.
    pub fn as_slice(&self) -> (items: &[(u32, u32)])
        ensures
            items@ == self@,
    {
        spans_as_slice(self)
    }

    /// Whether the ranges were moved to the heap.
    pub fn spilled(&self) -> (spilled: bool)
        ensures
            spilled == self.on_heap(),
    {
        spans_spilled(self)
    }
}

} // verus!
