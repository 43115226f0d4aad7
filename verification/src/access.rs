use vstd::prelude::*;

verus! {

/// One step that the driver asks of the machine it runs on. The driver
/// itself touches neither device registers nor ring memory: it says, in
/// order, which volatile accesses and barriers to perform, and is told what
/// the loads returned.
#[derive(Debug, Clone, Copy, PartialEq, Eq, Structural)]
#[allow(inconsistent_fields)]
pub enum Access {
    /// A full barrier: every access before it is visible to the device
    /// before any access after it.
    Fence,
    /// A volatile 16-bit little-endian load.
    Load16 { addr: usize },
    /// A volatile 32-bit little-endian load.
    Load32 { addr: usize },
    /// A volatile 64-bit little-endian load.
    Load64 { addr: usize },
    /// A volatile 16-bit little-endian store.
    Store16 { addr: usize, value: u16 },
    /// A volatile 32-bit little-endian store.
    Store32 { addr: usize, value: u32 },
    /// A volatile 64-bit little-endian store.
    Store64 { addr: usize, value: u64 },
    /// Fill `len` bytes from `addr` on with zero.
    Zero { addr: usize, len: usize },
    /// Copy `len` bytes from `src` on to `dst` on, as if through a buffer
    /// in between.
    Copy { dst: usize, src: usize, len: usize },
}

/// The two bytes of a 16-bit value, the low byte first.
pub open spec fn le16(value: u16) -> Seq<u8> {
    seq![(value % 0x100) as u8, (value / 0x100) as u8]
}

/// The four bytes of a 32-bit value, the lowest byte first.
pub open spec fn le32(value: u32) -> Seq<u8> {
    seq![
        (value % 0x100) as u8,
        (value / 0x100 % 0x100) as u8,
        (value / 0x1_0000 % 0x100) as u8,
        (value / 0x100_0000) as u8,
    ]
}

/// The eight bytes of a 64-bit value, the lowest byte first.
pub open spec fn le64(value: u64) -> Seq<u8> {
    seq![
        (value % 0x100) as u8,
        (value / 0x100 % 0x100) as u8,
        (value / 0x1_0000 % 0x100) as u8,
        (value / 0x100_0000 % 0x100) as u8,
        (value / 0x1_0000_0000 % 0x100) as u8,
        (value / 0x100_0000_0000 % 0x100) as u8,
        (value / 0x1_0000_0000_0000 % 0x100) as u8,
        (value / 0x100_0000_0000_0000) as u8,
    ]
}

/// The 16-bit value whose bytes, the low byte first, are the first two of
/// `bytes`.
pub open spec fn from_le16(bytes: Seq<u8>) -> u16 {
    (bytes[0] + 0x100 * bytes[1]) as u16
}

/// The 32-bit value whose bytes, the lowest first, are the first four of
/// `bytes`.
pub open spec fn from_le32(bytes: Seq<u8>) -> u32 {
    (bytes[0] + 0x100 * bytes[1] + 0x1_0000 * bytes[2] + 0x100_0000 * bytes[3]) as u32
}

/// The 64-bit value whose bytes, the lowest first, are the first eight of
/// `bytes`.
pub open spec fn from_le64(bytes: Seq<u8>) -> u64 {
    (bytes[0] + 0x100 * bytes[1] + 0x1_0000 * bytes[2] + 0x100_0000 * bytes[3] + 0x1_0000_0000
        * bytes[4] + 0x100_0000_0000 * bytes[5] + 0x1_0000_0000_0000 * bytes[6]
        + 0x100_0000_0000_0000 * bytes[7]) as u64
}

/// Decoding undoes encoding.
pub proof fn lemma_le_round_trip(a: u16, b: u32, c: u64)
    ensures
        from_le16(le16(a)) == a,
        from_le32(le32(b)) == b,
        from_le64(le64(c)) == c,
{
    assert(b % 0x100 + 0x100 * (b / 0x100 % 0x100) + 0x1_0000 * (b / 0x1_0000 % 0x100) + 0x100_0000
        * (b / 0x100_0000) == b) by (bit_vector);
    assert(b / 0x100_0000 < 0x100) by (bit_vector);
    assert(c % 0x100 + 0x100 * (c / 0x100 % 0x100) + 0x1_0000 * (c / 0x1_0000 % 0x100) + 0x100_0000
        * (c / 0x100_0000 % 0x100) + 0x1_0000_0000 * (c / 0x1_0000_0000 % 0x100) + 0x100_0000_0000
        * (c / 0x100_0000_0000 % 0x100) + 0x1_0000_0000_0000 * (c / 0x1_0000_0000_0000 % 0x100)
        + 0x100_0000_0000_0000 * (c / 0x100_0000_0000_0000) == c) by (bit_vector);
    assert(c / 0x100_0000_0000_0000 < 0x100) by (bit_vector);
}

/// Physical memory as the device sees it: a byte at every address.
pub type Memory = spec_fn(int) -> u8;

/// The `len` bytes of `mem` from `addr` on.
pub open spec fn bytes_at(mem: Memory, addr: int, len: nat) -> Seq<u8> {
    Seq::new(len, |i: int| mem(addr + i))
}

/// `mem` with `bytes` laid down from `addr` on and nothing else changed.
pub open spec fn with_bytes(mem: Memory, addr: int, bytes: Seq<u8>) -> Memory {
    |a: int|
        if addr <= a < addr + bytes.len() {
            bytes[a - addr]
        } else {
            mem(a)
        }
}

/// The little-endian 16-bit value at `addr`.
pub open spec fn load16(mem: Memory, addr: int) -> u16 {
    from_le16(bytes_at(mem, addr, 2))
}

/// The little-endian 32-bit value at `addr`.
pub open spec fn load32(mem: Memory, addr: int) -> u32 {
    from_le32(bytes_at(mem, addr, 4))
}

/// The little-endian 64-bit value at `addr`.
pub open spec fn load64(mem: Memory, addr: int) -> u64 {
    from_le64(bytes_at(mem, addr, 8))
}

impl Access {
    /// Whether the access writes none of the `len` bytes from `other` on.
    pub open spec fn spares(self, other: int, len: nat) -> bool {
        match self {
            Access::Store16 { addr, .. } => other + len <= addr || addr + 2 <= other,
            Access::Store32 { addr, .. } => other + len <= addr || addr + 4 <= other,
            Access::Store64 { addr, .. } => other + len <= addr || addr + 8 <= other,
            Access::Zero { addr, len: n } => other + len <= addr || addr + n <= other,
            Access::Copy { dst, len: n, .. } => other + len <= dst || dst + n <= other,
            _ => true,
        }
    }

    /// Memory after the access. Loads and barriers change nothing.
    pub open spec fn apply(self, mem: Memory) -> Memory {
        match self {
            Access::Store16 { addr, value } => with_bytes(
                mem,
                addr as int,
                le16(value),
            ),
            Access::Store32 { addr, value } => with_bytes(
                mem,
                addr as int,
                le32(value),
            ),
            Access::Store64 { addr, value } => with_bytes(
                mem,
                addr as int,
                le64(value),
            ),
            Access::Zero { addr, len } => with_bytes(
                mem,
                addr as int,
                Seq::new(len as nat, |i: int| 0u8),
            ),
            Access::Copy { dst, src, len } => with_bytes(
                mem,
                dst as int,
                bytes_at(mem, src as int, len as nat),
            ),
            _ => mem,
        }
    }
}

/// Memory after a sequence of accesses, performed first to last.
pub open spec fn run(accesses: Seq<Access>, mem: Memory) -> Memory
    decreases accesses.len(),
{
    if accesses.len() == 0 {
        mem
    } else {
        accesses.last().apply(run(accesses.drop_last(), mem))
    }
}

/// Bytes that were just laid down read back as they were written.
pub proof fn lemma_bytes_written(mem: Memory, addr: int, bytes: Seq<u8>)
    ensures
        bytes_at(with_bytes(mem, addr, bytes), addr, bytes.len()) == bytes,
{
    assert(bytes_at(with_bytes(mem, addr, bytes), addr, bytes.len()) =~= bytes);
}

/// Laying bytes down leaves every range that they do not touch as it was.
pub proof fn lemma_bytes_kept(mem: Memory, addr: int, bytes: Seq<u8>, other: int, len: nat)
    requires
        other + len <= addr || addr + bytes.len() <= other,
    ensures
        bytes_at(with_bytes(mem, addr, bytes), other, len) == bytes_at(mem, other, len),
{
    assert(bytes_at(with_bytes(mem, addr, bytes), other, len) =~= bytes_at(mem, other, len));
}

/// An access leaves every range outside its footprint as it was.
pub proof fn lemma_apply_kept(access: Access, mem: Memory, other: int, len: nat)
    requires
        access.spares(other, len),
    ensures
        bytes_at(access.apply(mem), other, len) == bytes_at(mem, other, len),
{
    match access {
        Access::Store16 { addr, value } => {
            lemma_bytes_kept(mem, addr as int, le16(value), other, len);
        },
        Access::Store32 { addr, value } => {
            lemma_bytes_kept(mem, addr as int, le32(value), other, len);
        },
        Access::Store64 { addr, value } => {
            lemma_bytes_kept(mem, addr as int, le64(value), other, len);
        },
        Access::Zero { addr, len: n } => {
            lemma_bytes_kept(mem, addr as int, Seq::new(n as nat, |i: int| 0u8), other, len);
        },
        Access::Copy { dst, src, len: n } => {
            lemma_bytes_kept(mem, dst as int, bytes_at(mem, src as int, n as nat), other, len);
        },
        _ => {},
    }
}

/// A 16-bit store is what a 16-bit load at the same address then returns.
pub proof fn lemma_store16_load16(mem: Memory, addr: usize, value: u16)
    ensures
        load16(Access::Store16 { addr, value }.apply(mem), addr as int) == value,
        bytes_at(Access::Store16 { addr, value }.apply(mem), addr as int, 2)
            == le16(value),
{
    lemma_le_round_trip(value, 0, 0);
    lemma_bytes_written(mem, addr as int, le16(value));
}

/// A 32-bit store is what a 32-bit load at the same address then returns.
pub proof fn lemma_store32_load32(mem: Memory, addr: usize, value: u32)
    ensures
        load32(Access::Store32 { addr, value }.apply(mem), addr as int) == value,
        bytes_at(Access::Store32 { addr, value }.apply(mem), addr as int, 4)
            == le32(value),
{
    lemma_le_round_trip(0, value, 0);
    lemma_bytes_written(mem, addr as int, le32(value));
}

/// A 64-bit store is what a 64-bit load at the same address then returns.
pub proof fn lemma_store64_load64(mem: Memory, addr: usize, value: u64)
    ensures
        load64(Access::Store64 { addr, value }.apply(mem), addr as int) == value,
        bytes_at(Access::Store64 { addr, value }.apply(mem), addr as int, 8)
            == le64(value),
{
    lemma_le_round_trip(0, 0, value);
    lemma_bytes_written(mem, addr as int, le64(value));
}

/// After a copy the target holds, byte for byte, what the source held before
/// it.
pub proof fn lemma_copy(mem: Memory, dst: usize, src: usize, len: usize)
    ensures
        bytes_at(Access::Copy { dst, src, len }.apply(mem), dst as int, len as nat) == bytes_at(
            mem,
            src as int,
            len as nat,
        ),
{
    lemma_bytes_written(mem, dst as int, bytes_at(mem, src as int, len as nat));
}

/// Performing a sequence and then one more access is performing the longer
/// sequence.
pub proof fn lemma_run_push(accesses: Seq<Access>, access: Access, mem: Memory)
    ensures
        run(accesses.push(access), mem) == access.apply(run(accesses, mem)),
{
    assert(accesses.push(access).drop_last() =~= accesses);
}

/// Performing one sequence and then another is performing both in a row.
pub proof fn lemma_run_concat(first: Seq<Access>, second: Seq<Access>, mem: Memory)
    ensures
        run(first + second, mem) == run(second, run(first, mem)),
    decreases second.len(),
{
    if second.len() == 0 {
        assert(first + second =~= first);
    } else {
        lemma_run_concat(first, second.drop_last(), mem);
        assert((first + second).drop_last() =~= first + second.drop_last());
    }
}

/// Barriers and loads leave memory as it is.
pub proof fn lemma_run_without_stores(accesses: Seq<Access>, mem: Memory)
    requires
        forall|i: int|
            0 <= i < accesses.len() ==> {
                let access = #[trigger] accesses[i];
                access is Fence || access is Load16 || access is Load32 || access is Load64
            },
    ensures
        run(accesses, mem) == mem,
    decreases accesses.len(),
{
    if accesses.len() > 0 {
        lemma_run_without_stores(accesses.drop_last(), mem);
    }
}

/// A sequence of accesses changes no byte that lies outside the footprint
/// of each of them.
pub proof fn lemma_run_kept(accesses: Seq<Access>, mem: Memory, other: int, len: nat)
    requires
        forall|i: int| 0 <= i < accesses.len() ==> (#[trigger] accesses[i]).spares(other, len),
    ensures
        bytes_at(run(accesses, mem), other, len) == bytes_at(mem, other, len),
    decreases accesses.len(),
{
    if accesses.len() > 0 {
        lemma_run_kept(accesses.drop_last(), mem, other, len);
        lemma_apply_kept(accesses.last(), run(accesses.drop_last(), mem), other, len);
    }
}

} // verus!
