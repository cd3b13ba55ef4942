//! The address arithmetic of the C-heap allocator used without `std`.
//!
//! An over-aligned block is carved out of a larger `malloc` block: the
//! pointer handed out is moved forward by a shift of one to `align` bytes,
//! and the shift is recorded, as one byte, just before that pointer so that
//! `free` can find the start of the `malloc` block again.

use vstd::prelude::*;

verus! {

/// The distance from `address` to the next multiple of `align` that lies
/// strictly after it.
pub open spec fn shift_spec(address: usize, align: usize) -> int {
    align - address % align
}

/// How far to move an address returned by `malloc` to reach an aligned
/// address, leaving at least one byte before it for the recorded shift.
pub fn over_aligned_shift(address: usize, align: usize) -> (shift: usize)
    requires
        align > 0,
    ensures
        shift == shift_spec(address, align),
        1 <= shift <= align,
        (address + shift) % (align as int) == 0,
{
    let shift = align - address % align;
    assert((address + (align - address % align)) % (align as int) == 0) by (nonlinear_arith)
        requires
            align > 0,
    {
        assert(address == (address / align) * align + address % align);
        assert(address + (align - address % align) == (address / align + 1) * align);
    }
    shift
}

/// The byte that records a shift: its low eight bits.
pub fn recorded_shift(shift: usize) -> (byte: u8)
    ensures
        byte == shift as u8,
{
    shift as u8
}

/// Reading the recorded byte back and stepping back by it finds the start
/// of the `malloc` block again, as long as the shift fits the byte: for
/// alignments up to 255. (At alignment 256 a shift of 256 records as 0.)
pub proof fn lemma_shift_round_trip(address: usize, align: usize)
    requires
        0 < align <= 255,
    ensures
        (shift_spec(address, align) as u8) as int == shift_spec(address, align),
        (address + shift_spec(address, align)) - (shift_spec(address, align) as u8) as int
            == address,
{
    let s = shift_spec(address, align);
    assert(0 < s <= 255);
    assert((s as u8) as int == s);
}

/// What to ask of `malloc` for a block of `size` bytes aligned to `align`.
#[derive(Clone, Copy, Debug, PartialEq, Eq, Structural)]
pub enum MallocRequest {
    /// An alignment up to the machine word's is what `malloc` gives anyway:
    /// ask for the block itself.
    Plain { size: usize },
    /// A larger alignment: ask for `align` more bytes, to move the pointer
    /// forward within.
    OverAligned { size: usize },
}

/// What `malloc` is asked for; `word_size` is the size of a `usize`.
pub open spec fn malloc_request_spec(size: usize, align: usize, word_size: usize) -> MallocRequest {
    if align <= word_size {
        MallocRequest::Plain { size }
    } else {
        MallocRequest::OverAligned { size: (size + align) as usize }
    }
}

/// The number of bytes a request asks `malloc` for.
pub open spec fn requested_size(r: MallocRequest) -> int {
    match r {
        MallocRequest::Plain { size } => size as int,
        MallocRequest::OverAligned { size } => size as int,
    }
}

/// Computes `malloc_request_spec`.
pub fn malloc_request(size: usize, align: usize, word_size: usize) -> (r: MallocRequest)
    requires
        align > word_size ==> size + align <= usize::MAX,
    ensures
        r == malloc_request_spec(size, align, word_size),
        requested_size(r) >= size,
        align <= word_size ==> r == (MallocRequest::Plain { size }),
        align > word_size ==> r is OverAligned && requested_size(r) == size + align,
{
    if align <= word_size {
        MallocRequest::Plain { size }
    } else {
        MallocRequest::OverAligned { size: size + align }
    }
}

/// The pointer handed out for the address that `malloc` returned, and the
/// byte recorded just before it. A failed `malloc` (a null address) hands
/// out a null pointer and records nothing. A small alignment hands out the
/// address itself; a large one moves it forward by the shift and records
/// the shift.
pub open spec fn allocated_pointer_spec(malloc_address: usize, align: usize, word_size: usize) -> (usize, Option<u8>) {
    if malloc_address == 0 {
        (0, None)
    } else if align <= word_size {
        (malloc_address, None)
    } else {
        (
            (malloc_address + shift_spec(malloc_address, align)) as usize,
            Some(shift_spec(malloc_address, align) as u8),
        )
    }
}

/// Computes `allocated_pointer_spec`.
pub fn allocated_pointer(malloc_address: usize, align: usize, word_size: usize) -> (r: (usize, Option<u8>))
    requires
        align > 0,
        align > word_size ==> malloc_address + align <= usize::MAX,
    ensures
        r == allocated_pointer_spec(malloc_address, align, word_size),
{
    if malloc_address == 0 {
        (0, None)
    } else if align <= word_size {
        (malloc_address, None)
    } else {
        let shift = over_aligned_shift(malloc_address, align);
        (malloc_address + shift, Some(recorded_shift(shift)))
    }
}

/// The address handed to `free` for a pointer handed out earlier: the
/// pointer itself for a small alignment, otherwise the pointer moved back
/// by the byte recorded just before it.
pub open spec fn freed_pointer_spec(pointer: usize, align: usize, word_size: usize, recorded: u8) -> usize {
    if align <= word_size {
        pointer
    } else {
        (pointer - recorded) as usize
    }
}

/// Computes `freed_pointer_spec`.
pub fn freed_pointer(pointer: usize, align: usize, word_size: usize, recorded: u8) -> (address: usize)
    requires
        align > word_size ==> recorded <= pointer,
    ensures
        address == freed_pointer_spec(pointer, align, word_size, recorded),
{
    if align <= word_size {
        pointer
    } else {
        pointer - recorded as usize
    }
}

/// Freeing a pointer that was handed out passes `free` the very address
/// that `malloc` returned, whenever the shift fits the recorded byte: for
/// every alignment up to the word size, and for larger ones up to 255.
/// (At alignment 256 a shift of 256 records as 0.)
pub proof fn lemma_free_finds_malloc_block(malloc_address: usize, align: usize, word_size: usize)
    requires
        align > 0,
        align > word_size ==> malloc_address + align <= usize::MAX,
        align <= word_size || align <= 255,
    ensures
        ({
            let (pointer, recorded) = allocated_pointer_spec(malloc_address, align, word_size);
            freed_pointer_spec(
                pointer,
                align,
                word_size,
                match recorded {
                    Some(b) => b,
                    None => 0u8,
                },
            ) == malloc_address
        }),
{
    if malloc_address != 0 && align > word_size {
        lemma_shift_round_trip(malloc_address, align);
        assert(0 < shift_spec(malloc_address, align) <= align) by (nonlinear_arith)
            requires
                align > 0,
        ;
    }
}

/// The request and the pointer arithmetic agree: the block handed out, of
/// `size` bytes from the handed-out pointer, lies within the block that
/// `malloc` was asked for, leaves room before it for the recorded byte when
/// the pointer was moved, and is aligned when the alignment is above the
/// word size.
pub proof fn lemma_handed_out_block_fits(size: usize, align: usize, word_size: usize, malloc_address: usize)
    requires
        align > 0,
        malloc_address != 0,
        align > word_size ==> malloc_address + align <= usize::MAX,
        align > word_size ==> size + align <= usize::MAX,
    ensures
        ({
            let (pointer, recorded) = allocated_pointer_spec(malloc_address, align, word_size);
            &&& malloc_address <= pointer
            &&& pointer - malloc_address + size <= requested_size(
                malloc_request_spec(size, align, word_size),
            )
            &&& pointer != malloc_address ==> malloc_request_spec(size, align, word_size) is OverAligned
            &&& align <= word_size ==> pointer == malloc_address && recorded is None
            &&& align > word_size ==> (pointer as int) % (align as int) == 0 && pointer - malloc_address >= 1
                && recorded == Some((pointer - malloc_address) as u8)
        }),
{
    assert(0 < shift_spec(malloc_address, align) <= align) by (nonlinear_arith)
        requires
            align > 0,
    ;
    if align > word_size {
        let a = malloc_address;
        assert((a + (align - a % align)) % (align as int) == 0) by (nonlinear_arith)
            requires
                align > 0,
        {
            assert(a == (a / align) * align + a % align);
            assert(a + (align - a % align) == (a / align + 1) * align);
        }
        let shift = shift_spec(a, align);
        let pointer = (a + shift) as usize;
        assert(pointer == a + shift);
        assert(pointer - a == shift);
    }
}

/// A failed `malloc` is reported as a failed allocation: the pointer
/// handed out is null, and no shift is recorded (nothing is written).
pub proof fn lemma_failed_malloc_gives_null(align: usize, word_size: usize)
    ensures
        allocated_pointer_spec(0, align, word_size) == (0usize, Option::<u8>::None),
{
}

} // verus!
