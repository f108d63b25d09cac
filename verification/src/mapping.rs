//! The memory-mapped file as this library sees it: a fixed run of bytes.

use std::ops::Deref;
use vstd::prelude::*;

verus! {

/// `memmap2::Mmap`, a read-only memory map. Nothing inside it is visible
/// here; its bytes are reached through [`mapped_slice`].
#[verifier::external_type_specification]
#[verifier::external_body]
pub struct ExMmap(memmap2::Mmap);

/// The bytes that a map holds, from its first to its last.
pub uninterp spec fn mapped_bytes(map: memmap2::Mmap) -> Seq<u8>;

/// Borrows the bytes of `map` without copying them.
///
/// Calls `<memmap2::Mmap as Deref>::deref`, which builds a slice from the
/// map's pointer and length. Not proved: that this slice is what
/// [`mapped_bytes`] names, which is to say that a map shows the same bytes
/// each time it is borrowed. That holds as long as nobody changes the file
/// under the map, which whoever created the map has promised.
#[verifier::external_body]
pub(crate) fn mapped_slice<'a>(map: &'a memmap2::Mmap) -> (bytes: &'a [u8])
    ensures
        bytes@ == mapped_bytes(*map),
{
    map.deref()
}

} // verus!
