//! What the decoding steps do when a guest call arrives: they turn pointer
//! and length words into checked views of guest memory, or trap.
//!
//! Guest memory is one byte slice. Views of it are handed out as they are
//! asked for, and nothing here keeps track of views handed out earlier: two
//! writable ranges decoded in the same call may overlap, and whoever declares
//! a host function with several writable parameters accepts that.
use vstd::prelude::*;
use vstd::slice::slice_subrange;
use vstd::string::StringSliceAdditionalSpecFns;
use vstd::utf8::{
    decode_utf8, encode_utf8, encode_utf8_decode_utf8, encode_utf8_valid_utf8, valid_utf8,
};
use crate::spans::{span_room, spans_push, spans_with_capacity, SpanList, INLINE_SPANS};
use crate::trap::Trap;

verus! {

/// The size in bytes of one buffer descriptor in guest memory: a pointer
/// word followed by a length word, both 32 bits, least significant byte
/// first.
pub const DESCRIPTOR_BYTES: usize = 8;

/// One buffer descriptor, as read from guest memory.
#[derive(Clone, Copy, Debug, PartialEq, Eq, Structural)]
pub struct Descriptor {
    pub ptr: u32,
    pub len: u32,
}

/// Whether `len` bytes from `ptr` on lie within a memory of `size` bytes.
/// Negative words address nothing, and a sum beyond the 32-bit words' range
/// counts as out of bounds.
pub open spec fn span_in_bounds(ptr: int, len: int, size: int) -> bool {
    0 <= ptr && 0 <= len && ptr + len <= i32::MAX && ptr + len <= size
}

/// The bytes that the pair `(ptr, len)` addresses.
pub open spec fn span_bytes(memory: Seq<u8>, ptr: int, len: int) -> Seq<u8> {
    memory.subrange(ptr, ptr + len)
}

/// Whether a table of `count` descriptors from `ptr` on lies within a
/// memory of `size` bytes.
pub open spec fn table_in_bounds(ptr: int, count: int, size: int) -> bool {
    0 <= ptr && 0 <= count && ptr + 8 * count <= i32::MAX && ptr + 8 * count <= size
}

/// The 32-bit word stored at offset `at`, least significant byte first.
pub open spec fn word_at(memory: Seq<u8>, at: int) -> int {
    memory[at] + 256 * memory[at + 1] + 65536 * memory[at + 2] + 16777216 * memory[at + 3]
}

/// The descriptor stored at offset `at`.
pub open spec fn descriptor_at(memory: Seq<u8>, at: int) -> Descriptor {
    Descriptor { ptr: word_at(memory, at) as u32, len: word_at(memory, at + 4) as u32 }
}

/// Whether the buffer that `descriptor` addresses lies within a memory of
/// `size` bytes, with an end that a 32-bit word can hold.
pub open spec fn descriptor_in_bounds(descriptor: Descriptor, size: int) -> bool {
    descriptor.ptr + descriptor.len <= u32::MAX && descriptor.ptr + descriptor.len <= size
}

/// The range that `descriptor` addresses: the offsets of its first byte and
/// of the byte after its last.
pub open spec fn descriptor_range(descriptor: Descriptor) -> (u32, u32) {
    (descriptor.ptr, (descriptor.ptr + descriptor.len) as u32)
}

/// The ranges that the first `count` descriptors of the table at `ptr`
/// address, in the table's order.
pub open spec fn table_ranges(memory: Seq<u8>, ptr: int, count: int) -> Seq<(u32, u32)> {
    Seq::new(count as nat, |i: int| descriptor_range(descriptor_at(memory, ptr + 8 * i)))
}

/// Whether the table lies within memory and so does every buffer that one
/// of its descriptors addresses.
pub open spec fn table_decodes(memory: Seq<u8>, ptr: int, count: int) -> bool {
    &&& table_in_bounds(ptr, count, memory.len() as int)
    &&& forall|i: int|
        0 <= i < count ==> descriptor_in_bounds(
            #[trigger] descriptor_at(memory, ptr + 8 * i),
            memory.len() as int,
        )
}

/// What decoding a `&str` parameter from `(ptr, len)` gives: the text that
/// the addressed bytes encode, or the trap that ends the call.
pub open spec fn str_decoding(memory: Seq<u8>, ptr: int, len: int) -> Result<Seq<char>, Trap> {
    if !span_in_bounds(ptr, len, memory.len() as int) {
        Err(Trap::OutOfBounds)
    } else if !valid_utf8(span_bytes(memory, ptr, len)) {
        Err(Trap::InvalidUtf8)
    } else {
        Ok(decode_utf8(span_bytes(memory, ptr, len)))
    }
}

/// What decoding a vectored parameter from `(ptr, count)` gives: the ranges
/// of all its buffers, or the trap that ends the call.
pub open spec fn vectored_decoding(memory: Seq<u8>, ptr: int, count: int) -> Result<
    Seq<(u32, u32)>,
    Trap,
> {
    if table_decodes(memory, ptr, count) {
        Ok(table_ranges(memory, ptr, count))
    } else {
        Err(Trap::OutOfBounds)
    }
}

/// Checks the pair `(ptr, len)` against a memory of `size` bytes and gives
/// the offsets of the first byte and of the byte after the last. The sum is
/// formed in 64 bits, so that it cannot wrap.
pub fn checked_span(ptr: i32, len: i32, size: usize) -> (span: Result<(usize, usize), Trap>)
    ensures
        span_in_bounds(ptr as int, len as int, size as int) ==> span == Ok::<(usize, usize), Trap>(
            (ptr as usize, (ptr + len) as usize),
        ),
        !span_in_bounds(ptr as int, len as int, size as int) ==> span == Err::<
            (usize, usize),
            Trap,
        >(Trap::OutOfBounds),
{
    if ptr < 0 || len < 0 {
        return Err(Trap::OutOfBounds);
    }
    let end: i64 = ptr as i64 + len as i64;
    if end > i32::MAX as i64 {
        return Err(Trap::OutOfBounds);
    }
    let end: usize = end as usize;
    if end > size {
        return Err(Trap::OutOfBounds);
    }
    Ok((ptr as usize, end))
}

/// `core::str::from_utf8`: the bytes as text, if and only if they are valid
/// UTF-8; the text then encodes to exactly those bytes.
#[verifier::external_body]
fn text_of<'a>(bytes: &'a [u8]) -> (text: Option<&'a str>)
    ensures
        text.is_some() == valid_utf8(bytes@),
        text matches Some(s) ==> s.spec_bytes() == bytes@,
{
    match core::str::from_utf8(bytes) {
        Ok(text) => Some(text),
        Err(_) => None,
    }
}

/// Decodes a `&str` parameter: the `len` bytes at `ptr`, as text. Traps if
/// the bytes do not lie within memory, or are not valid UTF-8.
pub fn decode_str<'a>(memory: &'a [u8], ptr: i32, len: i32) -> (text: Result<&'a str, Trap>)
    ensures
        match text {
            Ok(s) => {
                &&& str_decoding(memory@, ptr as int, len as int) == Ok::<Seq<char>, Trap>(s@)
                &&& s.spec_bytes() == span_bytes(memory@, ptr as int, len as int)
            },
            Err(trap) => str_decoding(memory@, ptr as int, len as int) == Err::<Seq<char>, Trap>(
                trap,
            ),
        },
{
    match checked_span(ptr, len, memory.len()) {
        Err(trap) => Err(trap),
        Ok((start, end)) => {
            let bytes = slice_subrange(memory, start, end);
            match text_of(bytes) {
                Some(s) => {
                    proof {
                        encode_utf8_decode_utf8(s@);
                    }
                    Ok(s)
                },
                None => Err(Trap::InvalidUtf8),
            }
        },
    }
}

/// Decodes a `&mut [u8]` parameter: an exclusive view of the `len` bytes at
/// `ptr`. What is written through the view lands in that range of guest
/// memory, and the rest of memory stays as it was.
pub fn decode_bytes_mut<'a>(memory: &'a mut [u8], ptr: i32, len: i32) -> (view: Result<
    &'a mut [u8],
    Trap,
>)
    ensures
        match view {
            Ok(bytes) => {
                &&& span_in_bounds(ptr as int, len as int, old(memory)@.len() as int)
                &&& bytes@ == span_bytes(old(memory)@, ptr as int, len as int)
                &&& final(memory)@ == old(memory)@.subrange(0, ptr as int) + final(bytes)@
                    + old(memory)@.subrange(ptr + len, old(memory)@.len() as int)
            },
            Err(trap) => {
                &&& trap == Trap::OutOfBounds
                &&& !span_in_bounds(ptr as int, len as int, old(memory)@.len() as int)
                &&& final(memory)@ == old(memory)@
            },
        },
{
    match checked_span(ptr, len, memory.len()) {
        Err(trap) => Err(trap),
        Ok((start, end)) => {
            let (_head, rest) = memory.split_at_mut(start);
            let (bytes, _tail) = rest.split_at_mut(end - start);
            Ok(bytes)
        },
    }
}

/// Checks a table of `count` descriptors at `ptr` against a memory of
/// `size` bytes and gives the offset of its first byte.
pub fn checked_table(ptr: i32, count: i32, size: usize) -> (start: Result<usize, Trap>)
    ensures
        table_in_bounds(ptr as int, count as int, size as int) ==> start == Ok::<usize, Trap>(
            ptr as usize,
        ),
        !table_in_bounds(ptr as int, count as int, size as int) ==> start == Err::<usize, Trap>(
            Trap::OutOfBounds,
        ),
{
    if ptr < 0 || count < 0 {
        return Err(Trap::OutOfBounds);
    }
    let end: i64 = ptr as i64 + 8 * (count as i64);
    if end > i32::MAX as i64 {
        return Err(Trap::OutOfBounds);
    }
    if end as usize > size {
        return Err(Trap::OutOfBounds);
    }
    Ok(ptr as usize)
}

/// Reads the 32-bit word at offset `at`, byte by byte.
pub fn read_word(memory: &[u8], at: usize) -> (word: u32)
    requires
        at + 4 <= memory.len(),
    ensures
        word == word_at(memory@, at as int),
{
    let b0: u32 = memory[at] as u32;
    let b1: u32 = memory[at + 1] as u32;
    let b2: u32 = memory[at + 2] as u32;
    let b3: u32 = memory[at + 3] as u32;
    b0 + 256 * b1 + 65536 * b2 + 16777216 * b3
}

/// Reads the descriptor at offset `at`, field by field.
pub fn read_descriptor(memory: &[u8], at: usize) -> (descriptor: Descriptor)
    requires
        at + DESCRIPTOR_BYTES <= memory.len(),
    ensures
        descriptor == descriptor_at(memory@, at as int),
{
    Descriptor { ptr: read_word(memory, at), len: read_word(memory, at + 4) }
}

/// Checks the buffer that `descriptor` addresses against a memory of `size`
/// bytes and gives its range.
pub fn checked_descriptor(descriptor: Descriptor, size: usize) -> (range: Result<(u32, u32), Trap>)
    ensures
        descriptor_in_bounds(descriptor, size as int) ==> range == Ok::<(u32, u32), Trap>(
            descriptor_range(descriptor),
        ),
        !descriptor_in_bounds(descriptor, size as int) ==> range == Err::<(u32, u32), Trap>(
            Trap::OutOfBounds,
        ),
{
    let end: u64 = descriptor.ptr as u64 + descriptor.len as u64;
    if end > u32::MAX as u64 {
        return Err(Trap::OutOfBounds);
    }
    if end as usize > size {
        return Err(Trap::OutOfBounds);
    }
    Ok((descriptor.ptr, end as u32))
}

/// Decodes a vectored parameter, `&[IoSlice]` or `&mut [IoSliceMut]`: reads
/// the `count` descriptors of the table at `ptr` and checks the buffer of
/// each against memory.
///
/// Each range stands for one view of guest memory: the offsets of its first
/// byte and of the byte after its last. The ranges come back in the table's
/// order, and either all of them or none: the first descriptor that
/// addresses bytes outside memory fails the whole decoding. Up to four
/// ranges are kept inline; only a longer list is allocated on the heap.
pub fn decode_vectored(memory: &[u8], ptr: i32, count: i32) -> (ranges: Result<SpanList, Trap>)
    ensures
        match ranges {
            Ok(list) => {
                &&& vectored_decoding(memory@, ptr as int, count as int) == Ok::<
                    Seq<(u32, u32)>,
                    Trap,
                >(list@)
                &&& list.on_heap() == (count > INLINE_SPANS)
            },
            Err(trap) => vectored_decoding(memory@, ptr as int, count as int) == Err::<
                Seq<(u32, u32)>,
                Trap,
            >(trap),
        },
{
    let start: usize = match checked_table(ptr, count, memory.len()) {
        Ok(start) => start,
        Err(trap) => {
            return Err(trap);
        },
    };
    let total: usize = count as usize;
    let mut list = spans_with_capacity(total);
    let mut index: usize = 0;
    while index < total
        invariant
            index <= total,
            total == count,
            start == ptr,
            table_in_bounds(ptr as int, count as int, memory@.len() as int),
            list@ == table_ranges(memory@, ptr as int, index as int),
            span_room(list) >= total,
            list.on_heap() == (count > INLINE_SPANS),
            forall|i: int|
                0 <= i < index ==> descriptor_in_bounds(
                    #[trigger] descriptor_at(memory@, ptr + 8 * i),
                    memory@.len() as int,
                ),
        decreases total - index,
    {
        let descriptor = read_descriptor(memory, start + DESCRIPTOR_BYTES * index);
        match checked_descriptor(descriptor, memory.len()) {
            Ok(range) => {
                spans_push(&mut list, range);
            },
            Err(trap) => {
                assert(descriptor == descriptor_at(memory@, ptr + 8 * index));
                return Err(trap);
            },
        }
        assert(list@ =~= table_ranges(memory@, ptr as int, index + 1));
        index += 1;
    }
    Ok(list)
}

/// Text survives the trip through guest memory: where the addressed bytes
/// are the UTF-8 encoding of `text`, decoding gives back exactly `text`.
pub proof fn str_round_trip(memory: Seq<u8>, ptr: int, len: int, text: Seq<char>)
    requires
        span_in_bounds(ptr, len, memory.len() as int),
        span_bytes(memory, ptr, len) == encode_utf8(text),
    ensures
        str_decoding(memory, ptr, len) == Ok::<Seq<char>, Trap>(text),
{
    encode_utf8_valid_utf8(text);
    encode_utf8_decode_utf8(text);
}

/// Bytes within memory that are not valid UTF-8 never decode to text.
pub proof fn invalid_text_traps(memory: Seq<u8>, ptr: int, len: int)
    requires
        span_in_bounds(ptr, len, memory.len() as int),
        !valid_utf8(span_bytes(memory, ptr, len)),
    ensures
        str_decoding(memory, ptr, len) == Err::<Seq<char>, Trap>(Trap::InvalidUtf8),
{
}

/// A pair whose sum lies beyond memory, or beyond what a 32-bit word holds,
/// decodes to nothing, whatever it is decoded as: text, bytes or a table of
/// descriptors.
pub proof fn out_of_bounds_traps(memory: Seq<u8>, ptr: int, len: int)
    requires
        ptr + len > memory.len() || ptr + len > i32::MAX,
    ensures
        !span_in_bounds(ptr, len, memory.len() as int),
        str_decoding(memory, ptr, len) == Err::<Seq<char>, Trap>(Trap::OutOfBounds),
        vectored_decoding(memory, ptr, len) == Err::<Seq<(u32, u32)>, Trap>(Trap::OutOfBounds),
{
}

/// A table of `count` descriptors that each address a range within memory
/// decodes to exactly `count` ranges, and the range at each place is the one
/// that the descriptor at that place addresses.
pub proof fn vectored_keeps_order(memory: Seq<u8>, ptr: int, count: int)
    requires
        table_decodes(memory, ptr, count),
    ensures
        vectored_decoding(memory, ptr, count) is Ok,
        vectored_decoding(memory, ptr, count)->Ok_0.len() == count,
        forall|i: int|
            0 <= i < count ==> {
                let descriptor = descriptor_at(memory, ptr + 8 * i);
                let range = #[trigger] vectored_decoding(memory, ptr, count)->Ok_0[i];
                &&& range.0 == descriptor.ptr
                &&& range.1 == descriptor.ptr + descriptor.len
                &&& range.1 <= memory.len()
            },
{
}

/// One descriptor that addresses bytes outside memory fails the whole table.
pub proof fn vectored_is_all_or_nothing(memory: Seq<u8>, ptr: int, count: int, bad: int)
    requires
        0 <= bad < count,
        !descriptor_in_bounds(descriptor_at(memory, ptr + 8 * bad), memory.len() as int),
    ensures
        vectored_decoding(memory, ptr, count) == Err::<Seq<(u32, u32)>, Trap>(Trap::OutOfBounds),
{
}

} // verus!
