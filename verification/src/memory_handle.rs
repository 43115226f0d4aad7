use vstd::prelude::*;
use crate::errors::MemoryReservationError;

verus! {

/// The least multiple of `multiple` that is not below `x`; `x` itself where
/// `multiple` is 0 or 1.
pub open spec fn round_up(x: int, multiple: int) -> int {
    if multiple <= 1 || x % multiple == 0 {
        x
    } else {
        x + (multiple - x % multiple)
    }
}

/// `round_up(x, m)` is a multiple of `m`, is not below `x`, and is less than
/// `m` above it.
pub proof fn lemma_round_up(x: int, multiple: int)
    requires
        multiple >= 1,
    ensures
        round_up(x, multiple) % multiple == 0,
        x <= round_up(x, multiple) < x + multiple,
{
    let r = round_up(x, multiple);
    if multiple > 1 && x % multiple != 0 {
        vstd::arithmetic::div_mod::lemma_fundamental_div_mod(x, multiple);
        let q = x / multiple;
        assert(r == (q + 1) * multiple) by (nonlinear_arith)
            requires
                r == x + (multiple - x % multiple),
                x == multiple * q + x % multiple,
        ;
        vstd::arithmetic::div_mod::lemma_mod_multiples_basic(q + 1, multiple);
    }
}

/// No multiple of `m` lies between `x` and `round_up(x, m)`.
pub proof fn lemma_round_up_least(x: int, multiple: int, y: int)
    requires
        multiple >= 1,
        y % multiple == 0,
        x <= y,
    ensures
        round_up(x, multiple) <= y,
{
    if multiple > 1 && x % multiple != 0 {
        vstd::arithmetic::div_mod::lemma_fundamental_div_mod(x, multiple);
        vstd::arithmetic::div_mod::lemma_fundamental_div_mod(y, multiple);
        let q = x / multiple;
        let p = y / multiple;
        assert(p >= q + 1) by (nonlinear_arith)
            requires
                y == multiple * p,
                x == multiple * q + x % multiple,
                0 < x % multiple < multiple,
                x <= y,
        ;
        assert(multiple * (q + 1) <= multiple * p) by (nonlinear_arith)
            requires
                p >= q + 1,
                multiple > 1,
        ;
        assert(round_up(x, multiple) == multiple * (q + 1)) by (nonlinear_arith)
            requires
                round_up(x, multiple) == x + (multiple - x % multiple),
                x == multiple * q + x % multiple,
        ;
    }
}

/// A bump arena over one contiguous region of physical memory. Nothing is
/// ever given back.
#[derive(Debug)]
pub struct MemoryHandle {
    start: usize,
    len: usize,
    pos: usize,
}

impl MemoryHandle {
    /// Physical address of the first byte of the region.
    pub closed spec fn base(&self) -> int {
        self.start as int
    }

    /// Size of the region in bytes.
    pub closed spec fn capacity(&self) -> int {
        self.len as int
    }

    /// Number of bytes handed out or skipped for alignment so far.
    pub closed spec fn cursor(&self) -> int {
        self.pos as int
    }

    /// The cursor never passes the end of the region.
    pub open spec fn wf(&self) -> bool {
        0 <= self.cursor() <= self.capacity()
    }

    /// Address that the next allocation with this alignment starts at.
    pub open spec fn next_address(&self, alignment: u32) -> int {
        round_up(self.base() + self.cursor(), alignment as int)
    }

    /// Whether `len` bytes at `next_address(alignment)` still lie inside the
    /// region and inside the address space.
    pub open spec fn has_room(&self, len: usize, alignment: u32) -> bool {
        &&& self.next_address(alignment) + len <= self.base() + self.capacity()
        &&& self.next_address(alignment) + len <= usize::MAX
    }

    /// The arena after a successful allocation of `len` bytes.
    pub open spec fn allocated(&self, after: &MemoryHandle, len: usize, alignment: u32) -> bool {
        &&& after.base() == self.base()
        &&& after.capacity() == self.capacity()
        &&& after.base() + after.cursor() == self.next_address(alignment) + len
    }

    /// Whether `later` is this arena after any number of allocations, granted
    /// or refused: the same region, the cursor no further back.
    pub open spec fn grows_to(&self, later: &MemoryHandle) -> bool {
        &&& later.base() == self.base()
        &&& later.capacity() == self.capacity()
        &&& later.cursor() >= self.cursor()
    }

    /// The arena over the `len` bytes from `start` on, with nothing handed
    /// out yet.
    pub fn new(start: usize, len: usize) -> (r: MemoryHandle)
        ensures
            r.wf(),
            r.base() == start,
            r.capacity() == len,
            r.cursor() == 0,
    {
        MemoryHandle { start, len, pos: 0 }
    }

    /// Where an allocation of `len` bytes with this alignment would start,
    /// if it has room.
    #[verifier::rlimit(30)]
    fn place(&self, len: usize, alignment: u32) -> (r: Option<usize>)
        requires
            self.wf(),
        ensures
            r is Some <==> self.has_room(len, alignment),
            r matches Some(address) ==> address == self.next_address(alignment),
    {
        let multiple: usize = if alignment <= 1 {
            1
        } else {
            alignment as usize
        };
        proof {
            lemma_round_up(self.base() + self.cursor(), multiple as int);
        }
        let cursor_address: usize = match self.start.checked_add(self.pos) {
            Some(a) => a,
            None => {
                return None;
            },
        };
        let excess: usize = cursor_address % multiple;
        let padding: usize = if excess == 0 {
            0
        } else {
            multiple - excess
        };
        let address: usize = match cursor_address.checked_add(padding) {
            Some(a) => a,
            None => {
                return None;
            },
        };
        match address.checked_add(len) {
            Some(end) => if end - self.start <= self.len {
                Some(address)
            } else {
                None
            },
            None => None,
        }
    }

    /// Whether an allocation of `len` bytes with this alignment would succeed.
    pub fn fits(&self, len: usize, alignment: u32) -> (r: bool)
        requires
            self.wf(),
        ensures
            r == self.has_room(len, alignment),
    {
        self.place(len, alignment).is_some()
    }

    /// Hands out `len` bytes at the first multiple of `alignment` at or after
    /// the cursor, and moves the cursor behind them. An alignment of 0 or 1
    /// asks for none. Where the bytes do not fit, nothing changes.
    pub fn allocate(&mut self, len: usize, alignment: u32) -> (r: Result<
        usize,
        MemoryReservationError,
    >)
        requires
            old(self).wf(),
        ensures
            final(self).wf(),
            old(self).grows_to(final(self)),
            r is Ok <==> old(self).has_room(len, alignment),
            r matches Ok(address) ==> {
                &&& address == old(self).next_address(alignment)
                &&& old(self).allocated(final(self), len, alignment)
            },
            r matches Err(e) ==> {
                &&& e == MemoryReservationError::MemoryExhausted
                &&& *final(self) == *old(self)
            },
    {
        proof {
            if alignment >= 1 {
                lemma_round_up(self.base() + self.cursor(), alignment as int);
            }
        }
        match self.place(len, alignment) {
            Some(address) => {
                self.pos = address - self.start + len;
                Ok(address)
            },
            None => Err(MemoryReservationError::MemoryExhausted),
        }
    }
}

/// Allocations ascend and never overlap: an allocation that is granted after
/// an earlier one, with any number of allocations in between, starts at or
/// behind the earlier one's end.
pub proof fn lemma_allocations_ascend(
    first: MemoryHandle,
    len1: usize,
    alignment1: u32,
    between: MemoryHandle,
    second: MemoryHandle,
    len2: usize,
    alignment2: u32,
)
    requires
        first.has_room(len1, alignment1),
        first.allocated(&between, len1, alignment1),
        between.grows_to(&second),
        second.has_room(len2, alignment2),
    ensures
        second.next_address(alignment2) >= first.next_address(alignment1) + len1,
{
    if alignment2 >= 1 {
        lemma_round_up(second.base() + second.cursor(), alignment2 as int);
    }
}

/// A granted allocation lies inside the region, and starts at a multiple of
/// the alignment asked for.
pub proof fn lemma_allocation_inside(arena: MemoryHandle, len: usize, alignment: u32)
    requires
        arena.wf(),
        arena.has_room(len, alignment),
    ensures
        arena.base() <= arena.next_address(alignment),
        arena.next_address(alignment) + len <= arena.base() + arena.capacity(),
        alignment >= 1 ==> arena.next_address(alignment) % (alignment as int) == 0,
{
    if alignment >= 1 {
        lemma_round_up(arena.base() + arena.cursor(), alignment as int);
    }
}

} // verus!
