use vstd::prelude::*;
use crate::access::{
    bytes_at,
    le16,
    le32,
    le64,
    lemma_apply_kept,
    lemma_run_concat,
    lemma_run_kept,
    lemma_run_push,
    lemma_run_without_stores,
    lemma_store16_load16,
    lemma_store32_load32,
    lemma_store64_load64,
    load16,
    load32,
    load64,
    run,
    Access,
    Memory,
};
use crate::memory_handle::lemma_round_up;
use crate::virtio::{configure_accesses, spec_page_number, QUEUE_SIZE};
use crate::virtio_device_register::{Register, VirtioMMIORegister, REGISTER_WINDOW_SIZE};
use crate::virtqueue::{next_index, VirtQueueHandle, BUFFER_SIZE, MMIO_QUEUE_ALIGN};

verus! {

/// The parts of a queue follow each other without overlap: the descriptor
/// table, the available ring, the used ring; and all of them lie inside the
/// address space.
pub proof fn lemma_queue_layout(queue: VirtQueueHandle)
    requires
        queue.wf(),
    ensures
        queue.descriptor_address(queue.queue_size() as int) == queue.available().address(),
        queue.available().slot_address(queue.queue_size() as int) + 2 <= queue.used().address(),
        queue.used().slot_address(queue.queue_size() as int) + 2 <= queue.buffers_address(),
        queue.buffers_address() <= usize::MAX,
{
    lemma_round_up(18 * queue.queue_size() + 6, MMIO_QUEUE_ALIGN + 1);
    lemma_round_up(8 * queue.queue_size() + 6, MMIO_QUEUE_ALIGN + 1);
}

/// Writing a descriptor puts its four fields at the descriptor's place in
/// the table, 16 bytes for each descriptor: the address in bytes 0 to 7,
/// the length in bytes 8 to 11, the flags in bytes 12 and 13, the next index
/// in bytes 14 and 15, each little-endian. No other byte changes.
#[verifier::rlimit(50)]
pub proof fn lemma_descriptor_layout(
    queue: VirtQueueHandle,
    idx: u16,
    addr: u64,
    len: u32,
    flags: u16,
    next: u16,
    mem: Memory,
)
    requires
        queue.wf(),
        idx < queue.queue_size(),
    ensures
        ({
            let at = queue.base_address() + 16 * idx;
            let after = run(queue.descriptor_accesses(idx, addr, len, flags, next), mem);
            &&& bytes_at(after, at, 8) == le64(addr)
            &&& bytes_at(after, at + 8, 4) == le32(len)
            &&& bytes_at(after, at + 12, 2) == le16(flags)
            &&& bytes_at(after, at + 14, 2) == le16(next)
            &&& load64(after, at) == addr
            &&& load32(after, at + 8) == len
            &&& load16(after, at + 12) == flags
            &&& load16(after, at + 14) == next
            &&& forall|a: int| !(at <= a < at + 16) ==> #[trigger] after(a) == mem(a)
        }),
{
    lemma_queue_layout(queue);
    let at = queue.base_address() + 16 * idx;
    let accesses = queue.descriptor_accesses(idx, addr, len, flags, next);
    let s0 = Access::Store64 { addr: at as usize, value: addr };
    let s1 = Access::Store32 { addr: (at + 8) as usize, value: len };
    let s2 = Access::Store16 { addr: (at + 12) as usize, value: flags };
    let s3 = Access::Store16 { addr: (at + 14) as usize, value: next };
    let m0 = s0.apply(mem);
    let m1 = s1.apply(m0);
    let m2 = s2.apply(m1);
    let m3 = s3.apply(m2);
    assert(accesses =~= Seq::empty().push(s0).push(s1).push(s2).push(s3));
    lemma_run_push(Seq::empty(), s0, mem);
    lemma_run_push(Seq::empty().push(s0), s1, mem);
    lemma_run_push(Seq::empty().push(s0).push(s1), s2, mem);
    lemma_run_push(Seq::empty().push(s0).push(s1).push(s2), s3, mem);
    assert(run(accesses, mem) == m3);
    lemma_store64_load64(mem, at as usize, addr);
    lemma_store32_load32(m0, (at + 8) as usize, len);
    lemma_store16_load16(m1, (at + 12) as usize, flags);
    lemma_store16_load16(m2, (at + 14) as usize, next);
    lemma_apply_kept(s1, m0, at, 8);
    lemma_apply_kept(s2, m1, at, 8);
    lemma_apply_kept(s3, m2, at, 8);
    lemma_apply_kept(s2, m1, at + 8, 4);
    lemma_apply_kept(s3, m2, at + 8, 4);
    lemma_apply_kept(s3, m2, at + 12, 2);
    assert forall|a: int| !(at <= a < at + 16) implies #[trigger] m3(a) == mem(a) by {
        assert(m0(a) == mem(a));
        assert(m1(a) == m0(a));
        assert(m2(a) == m1(a));
        assert(m3(a) == m2(a));
    }
}

/// Looking for an element changes no memory.
pub proof fn lemma_poll_changes_nothing(queue: VirtQueueHandle, mem: Memory)
    ensures
        run(queue.poll_accesses(), mem) == mem,
{
    lemma_run_without_stores(queue.poll_accesses(), mem);
}

/// Address of the slot of the available ring that an offer fills when the
/// index word holds `avail_idx`: the index modulo the queue size picks it.
pub open spec fn offered_slot(queue: VirtQueueHandle, avail_idx: u16) -> int {
    queue.available().slot_address(avail_idx as int % queue.queue_size() as int)
}

/// Memory as the device may see it while an offer is under way: after the
/// first `k` of its accesses.
pub open spec fn during_offer(
    queue: VirtQueueHandle,
    avail_idx: u16,
    desc_idx: u16,
    mem: Memory,
    k: int,
) -> Memory {
    run(queue.offer_accesses(avail_idx, desc_idx).subrange(0, k), mem)
}

/// Memory after the whole of an offer.
pub open spec fn after_offer(
    queue: VirtQueueHandle,
    avail_idx: u16,
    desc_idx: u16,
    mem: Memory,
) -> Memory {
    run(queue.offer_accesses(avail_idx, desc_idx), mem)
}

/// The five stages of an offer, one after each access: nothing, the slot,
/// nothing, the index word, nothing.
#[verifier::rlimit(50)]
proof fn lemma_offer_stages(queue: VirtQueueHandle, avail_idx: u16, desc_idx: u16, mem: Memory)
    requires
        queue.wf(),
    ensures
        ({
            let slot = Access::Store16 {
                addr: offered_slot(queue, avail_idx) as usize,
                value: desc_idx,
            };
            let index = Access::Store16 {
                addr: queue.available().idx_address() as usize,
                value: next_index(avail_idx),
            };
            &&& queue.offer_accesses(avail_idx, desc_idx) == seq![
                Access::Fence,
                slot,
                Access::Fence,
                index,
                Access::Fence,
            ]
            &&& offered_slot(queue, avail_idx) as usize == offered_slot(queue, avail_idx)
            &&& queue.available().idx_address() as usize == queue.available().idx_address()
            &&& queue.available().idx_address() + 2 <= offered_slot(queue, avail_idx)
            &&& during_offer(queue, avail_idx, desc_idx, mem, 0) == mem
            &&& during_offer(queue, avail_idx, desc_idx, mem, 1) == mem
            &&& during_offer(queue, avail_idx, desc_idx, mem, 2) == slot.apply(mem)
            &&& during_offer(queue, avail_idx, desc_idx, mem, 3) == slot.apply(mem)
            &&& during_offer(queue, avail_idx, desc_idx, mem, 4) == index.apply(slot.apply(mem))
            &&& during_offer(queue, avail_idx, desc_idx, mem, 5) == index.apply(slot.apply(mem))
            &&& after_offer(queue, avail_idx, desc_idx, mem) == index.apply(slot.apply(mem))
        }),
{
    lemma_queue_layout(queue);
    let size = queue.queue_size() as int;
    assert(0 <= avail_idx as int % size < size);
    let slot = Access::Store16 { addr: offered_slot(queue, avail_idx) as usize, value: desc_idx };
    let index = Access::Store16 {
        addr: queue.available().idx_address() as usize,
        value: next_index(avail_idx),
    };
    let accesses = queue.offer_accesses(avail_idx, desc_idx);
    let e = Seq::<Access>::empty();
    assert(accesses =~= seq![Access::Fence, slot, Access::Fence, index, Access::Fence]);
    assert(accesses.subrange(0, 0) =~= e);
    assert(accesses.subrange(0, 1) =~= e.push(Access::Fence));
    assert(accesses.subrange(0, 2) =~= e.push(Access::Fence).push(slot));
    assert(accesses.subrange(0, 3) =~= e.push(Access::Fence).push(slot).push(Access::Fence));
    assert(accesses.subrange(0, 4) =~= e.push(Access::Fence).push(slot).push(Access::Fence).push(
        index,
    ));
    assert(accesses.subrange(0, 5) =~= accesses);
    assert(accesses =~= e.push(Access::Fence).push(slot).push(Access::Fence).push(index).push(
        Access::Fence,
    ));
    lemma_run_push(e, Access::Fence, mem);
    lemma_run_push(e.push(Access::Fence), slot, mem);
    lemma_run_push(e.push(Access::Fence).push(slot), Access::Fence, mem);
    lemma_run_push(e.push(Access::Fence).push(slot).push(Access::Fence), index, mem);
    lemma_run_push(
        e.push(Access::Fence).push(slot).push(Access::Fence).push(index),
        Access::Fence,
        mem,
    );
}

/// An offer puts the descriptor index into the slot that the index word,
/// taken modulo the queue size, points at, and moves the index word on by
/// one, from 65535 to 0. No other byte changes.
#[verifier::rlimit(50)]
pub proof fn lemma_offer(queue: VirtQueueHandle, avail_idx: u16, desc_idx: u16, mem: Memory)
    requires
        queue.wf(),
    ensures
        ({
            let index_word = queue.available().idx_address();
            let slot = offered_slot(queue, avail_idx);
            let after = after_offer(queue, avail_idx, desc_idx, mem);
            &&& load16(after, slot) == desc_idx
            &&& load16(after, index_word) == next_index(avail_idx)
            &&& forall|a: int|
                !(slot <= a < slot + 2) && !(index_word <= a < index_word + 2)
                    ==> #[trigger] after(a) == mem(a)
        }),
{
    lemma_offer_stages(queue, avail_idx, desc_idx, mem);
    let index_word = queue.available().idx_address();
    let slot = offered_slot(queue, avail_idx);
    let slot_store = Access::Store16 { addr: slot as usize, value: desc_idx };
    let index_store = Access::Store16 { addr: index_word as usize, value: next_index(avail_idx) };
    let m1 = slot_store.apply(mem);
    let m2 = index_store.apply(m1);
    lemma_store16_load16(mem, slot as usize, desc_idx);
    lemma_store16_load16(m1, index_word as usize, next_index(avail_idx));
    lemma_apply_kept(index_store, m1, slot, 2);
    assert forall|a: int|
        !(slot <= a < slot + 2) && !(index_word <= a < index_word + 2) implies #[trigger] m2(a)
        == mem(a) by {
        assert(m1(a) == mem(a));
        assert(m2(a) == m1(a));
    }
}

/// The device never sees the index word moved before the slot is written:
/// after any number of the accesses of an offer, the index word holds either
/// what it held before or the next index, and holds the next index only
/// where the slot already holds the descriptor. The store to the slot, a
/// barrier and the store to the index word follow each other in that order.
#[verifier::rlimit(50)]
pub proof fn lemma_publish_order(
    queue: VirtQueueHandle,
    avail_idx: u16,
    desc_idx: u16,
    mem: Memory,
    k: int,
)
    requires
        queue.wf(),
        load16(mem, queue.available().idx_address()) == avail_idx,
        0 <= k <= queue.offer_accesses(avail_idx, desc_idx).len(),
    ensures
        ({
            let index_word = queue.available().idx_address();
            let slot = offered_slot(queue, avail_idx);
            let accesses = queue.offer_accesses(avail_idx, desc_idx);
            let seen = during_offer(queue, avail_idx, desc_idx, mem, k);
            &&& accesses[1] == (Access::Store16 { addr: slot as usize, value: desc_idx })
            &&& accesses[2] == Access::Fence
            &&& accesses[3] == (Access::Store16 {
                addr: index_word as usize,
                value: next_index(avail_idx),
            })
            &&& load16(seen, index_word) == avail_idx || load16(seen, index_word) == next_index(
                avail_idx,
            )
            &&& load16(seen, index_word) != avail_idx ==> load16(seen, slot) == desc_idx
        }),
{
    lemma_offer_stages(queue, avail_idx, desc_idx, mem);
    let index_word = queue.available().idx_address();
    let slot = offered_slot(queue, avail_idx);
    let slot_store = Access::Store16 { addr: slot as usize, value: desc_idx };
    let index_store = Access::Store16 { addr: index_word as usize, value: next_index(avail_idx) };
    let m1 = slot_store.apply(mem);
    let m2 = index_store.apply(m1);
    lemma_store16_load16(mem, slot as usize, desc_idx);
    lemma_store16_load16(m1, index_word as usize, next_index(avail_idx));
    lemma_apply_kept(slot_store, mem, index_word, 2);
    lemma_apply_kept(index_store, m1, slot, 2);
}

/// Memory after offering the descriptors of `descs` one after another, each
/// offer with the index word as the one before left it.
pub open spec fn after_offers(queue: VirtQueueHandle, descs: Seq<u16>, mem: Memory) -> Memory
    decreases descs.len(),
{
    if descs.len() == 0 {
        mem
    } else {
        let before = after_offers(queue, descs.drop_last(), mem);
        after_offer(
            queue,
            load16(before, queue.available().idx_address()),
            descs.last(),
            before,
        )
    }
}

/// The index word counts the offers modulo 65536.
pub proof fn lemma_index_counts_offers(queue: VirtQueueHandle, descs: Seq<u16>, mem: Memory)
    requires
        queue.wf(),
    ensures
        load16(after_offers(queue, descs, mem), queue.available().idx_address()) == (load16(
            mem,
            queue.available().idx_address(),
        ) + descs.len()) % 0x1_0000,
    decreases descs.len(),
{
    if descs.len() > 0 {
        lemma_index_counts_offers(queue, descs.drop_last(), mem);
        let before = after_offers(queue, descs.drop_last(), mem);
        lemma_offer(
            queue,
            load16(before, queue.available().idx_address()),
            descs.last(),
            before,
        );
    }
}

/// After 65536 offers the index word is where it started.
pub proof fn lemma_index_wraps(queue: VirtQueueHandle, descs: Seq<u16>, mem: Memory)
    requires
        queue.wf(),
        descs.len() == 0x1_0000,
    ensures
        load16(after_offers(queue, descs, mem), queue.available().idx_address()) == load16(
            mem,
            queue.available().idx_address(),
        ),
{
    lemma_index_counts_offers(queue, descs, mem);
}

/// The descriptors that the available ring holds for the `n` values of the
/// index word from `from` on: those that the driver has offered since the
/// device read the ring up to `from`.
pub open spec fn published(queue: VirtQueueHandle, mem: Memory, from: u16, n: nat) -> Seq<u16> {
    Seq::new(n, |k: int| load16(mem, offered_slot(queue, ((from + k) % 0x1_0000) as u16)))
}

/// Index values less than a queue size apart pick different slots, where the
/// queue size divides 65536.
#[verifier::rlimit(50)]
proof fn lemma_slots_differ(queue: VirtQueueHandle, from: u16, k: int, n: int)
    requires
        queue.wf(),
        0x1_0000int % (queue.queue_size() as int) == 0,
        0 <= k < n < queue.queue_size(),
    ensures
        offered_slot(queue, ((from + k) % 0x1_0000) as u16) + 2 <= offered_slot(
            queue,
            ((from + n) % 0x1_0000) as u16,
        ) || offered_slot(queue, ((from + n) % 0x1_0000) as u16) + 2 <= offered_slot(
            queue,
            ((from + k) % 0x1_0000) as u16,
        ),
{
    let size = queue.queue_size() as int;
    let turns = 0x1_0000int / size;
    vstd::arithmetic::div_mod::lemma_fundamental_div_mod(0x1_0000, size);
    assert(size * turns == 0x1_0000);
    assert(turns > 0) by (nonlinear_arith)
        requires
            size * turns == 0x1_0000,
            size > 0,
    ;
    vstd::arithmetic::div_mod::lemma_mod_mod(from + k, size, turns);
    vstd::arithmetic::div_mod::lemma_mod_mod(from + n, size, turns);
    let sk = ((from + k) % 0x1_0000) % size;
    let sn = ((from + n) % 0x1_0000) % size;
    assert(sk == (from + k) % size);
    assert(sn == (from + n) % size);
    if sk == sn {
        vstd::arithmetic::div_mod::lemma_mod_equivalence(from + n, from + k, size);
        vstd::arithmetic::div_mod::lemma_small_mod((n - k) as nat, size as nat);
        assert(false);
    }
}

/// Offering a descriptor that the driver owns restores it to the available
/// ring exactly once and disturbs no other: the ring then holds what it held
/// for the device, in the same order, and the descriptor behind it; and where
/// no descriptor stood twice before, none stands twice after. This holds of
/// a queue whose size divides 65536 and which is not full.
#[verifier::rlimit(50)]
pub proof fn lemma_round_trip(
    queue: VirtQueueHandle,
    mem: Memory,
    from: u16,
    n: nat,
    desc_idx: u16,
)
    requires
        queue.wf(),
        0x1_0000int % (queue.queue_size() as int) == 0,
        n < queue.queue_size(),
        load16(mem, queue.available().idx_address()) == (from + n) % 0x1_0000,
        published(queue, mem, from, n).no_duplicates(),
        !published(queue, mem, from, n).contains(desc_idx),
    ensures
        ({
            let avail_idx = load16(mem, queue.available().idx_address());
            let after = after_offer(queue, avail_idx, desc_idx, mem);
            &&& load16(after, queue.available().idx_address()) == (from + n + 1) % 0x1_0000
            &&& published(queue, after, from, n + 1) == published(queue, mem, from, n).push(
                desc_idx,
            )
            &&& published(queue, after, from, n + 1).no_duplicates()
        }),
{
    let index_word = queue.available().idx_address();
    let avail_idx = load16(mem, index_word);
    let after = after_offer(queue, avail_idx, desc_idx, mem);
    let before = published(queue, mem, from, n);
    let now = published(queue, after, from, n + 1);
    lemma_offer(queue, avail_idx, desc_idx, mem);
    lemma_offer_stages(queue, avail_idx, desc_idx, mem);
    lemma_queue_layout(queue);
    let target = offered_slot(queue, avail_idx);
    assert forall|k: int| 0 <= k < n implies now[k] == before[k] by {
        let slot = offered_slot(queue, ((from + k) % 0x1_0000) as u16);
        lemma_slots_differ(queue, from, k, n as int);
        assert(0 <= ((from + k) % 0x1_0000) % (queue.queue_size() as int));
        assert(bytes_at(after, slot, 2) =~= bytes_at(mem, slot, 2)) by {
            assert(after(slot) == mem(slot));
            assert(after(slot + 1) == mem(slot + 1));
        }
    }
    assert(now[n as int] == desc_idx);
    assert(now =~= before.push(desc_idx));
    assert forall|i: int, j: int| 0 <= i < now.len() && 0 <= j < now.len() && i != j implies now[i]
        != now[j] by {
        if i < n && j < n {
            assert(before[i] != before[j]);
        } else if i < n {
            assert(before.contains(before[i]));
        } else {
            assert(before.contains(before[j]));
        }
    }
}

/// Ranges that agree byte for byte hold the same values.
proof fn lemma_same_bytes(first: Memory, second: Memory, at: int, len: nat)
    requires
        forall|a: int| at <= a < at + len ==> #[trigger] first(a) == second(a),
    ensures
        bytes_at(first, at, len) == bytes_at(second, at, len),
{
    assert(bytes_at(first, at, len) =~= bytes_at(second, at, len));
}

/// Whether the descriptor at `at` points at a buffer of the queue's buffer
/// size at `buffer`, with the flags of its queue, and chains to none.
pub open spec fn describes(mem: Memory, at: int, buffer: int, receive: bool) -> bool {
    &&& load64(mem, at) == buffer
    &&& load32(mem, at + 8) == BUFFER_SIZE
    &&& load16(mem, at + 12) == VirtQueueHandle::descriptor_flags(receive)
    &&& load16(mem, at + 14) == 0
}

/// After the region was cleared and the first `n` descriptors were written,
/// each of them points at its own buffer, and the region behind them holds
/// zero.
#[verifier::rlimit(50)]
proof fn lemma_populated_upto(queue: VirtQueueHandle, receive: bool, mem: Memory, n: nat)
    requires
        queue.wf(),
        n <= queue.queue_size(),
        queue.buffer_address(queue.queue_size() as int) <= u64::MAX,
    ensures
        ({
            let after = run(queue.populate_accesses(receive, n), mem);
            &&& forall|i: int|
                0 <= i < n ==> describes(
                    after,
                    #[trigger] queue.descriptor_address(i),
                    queue.buffer_address(i),
                    receive,
                )
            &&& forall|a: int|
                queue.descriptor_address(n as int) <= a < queue.buffers_address()
                    ==> #[trigger] after(a) == 0
            &&& forall|a: int|
                !(queue.base_address() <= a < queue.buffers_address()) ==> #[trigger] after(a)
                    == mem(a)
        }),
    decreases n,
{
    lemma_queue_layout(queue);
    if n == 0 {
        let zero = Access::Zero {
            addr: queue.base_address(),
            len: (queue.buffers_address() - queue.base_address()) as usize,
        };
        assert(queue.populate_accesses(receive, 0) =~= Seq::empty().push(zero));
        lemma_run_push(Seq::empty(), zero, mem);
    } else {
        let idx = (n - 1) as u16;
        let before = run(queue.populate_accesses(receive, (n - 1) as nat), mem);
        let writes = queue.descriptor_accesses(
            idx,
            queue.buffer_address(n - 1) as u64,
            BUFFER_SIZE,
            VirtQueueHandle::descriptor_flags(receive),
            0,
        );
        let after = run(writes, before);
        lemma_populated_upto(queue, receive, mem, (n - 1) as nat);
        lemma_run_concat(queue.populate_accesses(receive, (n - 1) as nat), writes, mem);
        lemma_descriptor_layout(
            queue,
            idx,
            queue.buffer_address(n - 1) as u64,
            BUFFER_SIZE,
            VirtQueueHandle::descriptor_flags(receive),
            0,
            before,
        );
        assert forall|i: int| 0 <= i < n implies describes(
            after,
            #[trigger] queue.descriptor_address(i),
            queue.buffer_address(i),
            receive,
        ) by {
            if i < n - 1 {
                let at = queue.descriptor_address(i);
                assert(describes(before, queue.descriptor_address(i), queue.buffer_address(i), receive));
                lemma_same_bytes(after, before, at, 8);
                lemma_same_bytes(after, before, at + 8, 4);
                lemma_same_bytes(after, before, at + 12, 2);
                lemma_same_bytes(after, before, at + 14, 2);
            }
        }
    }
}

/// What a fresh queue's first accesses leave in memory: every descriptor
/// points at its own buffer, 4096 bytes long, is flagged for the device to
/// write where the queue receives and not flagged where it sends, and chains
/// to none; both rings are empty, their index words zero. No byte outside
/// the queue's region changes.
#[verifier::rlimit(50)]
pub proof fn lemma_populated(queue: VirtQueueHandle, receive: bool, mem: Memory, idx: u16)
    requires
        queue.wf(),
        idx < queue.queue_size(),
        queue.buffer_address(queue.queue_size() as int) <= u64::MAX,
    ensures
        ({
            let after = run(queue.populate_accesses(receive, queue.queue_size() as nat), mem);
            &&& describes(
                after,
                queue.descriptor_address(idx as int),
                queue.buffer_address(idx as int),
                receive,
            )
            &&& load16(after, queue.available().idx_address()) == 0
            &&& load16(after, queue.used().idx_address()) == 0
            &&& forall|a: int|
                !(queue.base_address() <= a < queue.buffers_address()) ==> #[trigger] after(a)
                    == mem(a)
        }),
{
    lemma_queue_layout(queue);
    lemma_populated_upto(queue, receive, mem, queue.queue_size() as nat);
    let after = run(queue.populate_accesses(receive, queue.queue_size() as nat), mem);
    assert(describes(
        after,
        queue.descriptor_address(idx as int),
        queue.buffer_address(idx as int),
        receive,
    ));
    let a = queue.available().idx_address();
    assert(after(a) == 0 && after(a + 1) == 0);
    assert(bytes_at(after, a, 2) =~= seq![0u8, 0u8]);
    let u = queue.used().idx_address();
    assert(after(u) == 0 && after(u + 1) == 0);
    assert(bytes_at(after, u, 2) =~= seq![0u8, 0u8]);
}

/// Handing the first `n` descriptors to the device on a ring whose index
/// word holds zero: the index word then holds `n`, slot `i` holds `i` for
/// each of them, and no byte outside the available ring has changed.
#[verifier::rlimit(50)]
pub proof fn lemma_pre_offered(queue: VirtQueueHandle, mem: Memory, n: nat)
    requires
        queue.wf(),
        n <= queue.queue_size(),
        load16(mem, queue.available().idx_address()) == 0,
    ensures
        ({
            let after = run(queue.pre_offer_accesses(n), mem);
            &&& load16(after, queue.available().idx_address()) == n
            &&& forall|i: int|
                0 <= i < n ==> load16(after, #[trigger] queue.available().slot_address(i)) == i
            &&& forall|a: int|
                !(queue.available().address() <= a < queue.available().slot_address(n as int))
                    ==> #[trigger] after(a) == mem(a)
        }),
    decreases n,
{
    lemma_queue_layout(queue);
    if n == 0 {
    } else {
        let idx = (n - 1) as u16;
        let before = run(queue.pre_offer_accesses((n - 1) as nat), mem);
        let after = after_offer(queue, idx, idx, before);
        lemma_pre_offered(queue, mem, (n - 1) as nat);
        lemma_run_concat(
            queue.pre_offer_accesses((n - 1) as nat),
            queue.offer_accesses(idx, idx),
            mem,
        );
        lemma_offer(queue, idx, idx, before);
        vstd::arithmetic::div_mod::lemma_small_mod(idx as nat, queue.queue_size() as nat);
        assert(offered_slot(queue, idx) == queue.available().slot_address(n - 1));
        assert forall|i: int| 0 <= i < n implies load16(
            after,
            #[trigger] queue.available().slot_address(i),
        ) == i by {
            if i < n - 1 {
                lemma_same_bytes(after, before, queue.available().slot_address(i), 2);
            }
        }
    }
}

/// The first accesses of a fresh queue, one by one: the region is cleared
/// first, and the four stores of descriptor `i` stand at positions
/// `1 + 4 * i` and after.
pub proof fn lemma_populate_accesses_by_index(
    queue: VirtQueueHandle,
    receive: bool,
    n: nat,
    i: int,
)
    requires
        0 <= i < n,
    ensures
        queue.populate_accesses(receive, n).len() == 1 + 4 * n,
        queue.populate_accesses(receive, n)[0] == queue.populate_accesses(receive, 0)[0],
        queue.populate_accesses(receive, n).subrange(1 + 4 * i, 5 + 4 * i)
            == queue.descriptor_accesses(
            i as u16,
            queue.buffer_address(i) as u64,
            BUFFER_SIZE,
            VirtQueueHandle::descriptor_flags(receive),
            0,
        ),
    decreases n,
{
    let all = queue.populate_accesses(receive, n);
    let before = queue.populate_accesses(receive, (n - 1) as nat);
    let last = queue.descriptor_accesses(
        (n - 1) as u16,
        queue.buffer_address(n - 1) as u64,
        BUFFER_SIZE,
        VirtQueueHandle::descriptor_flags(receive),
        0,
    );
    if n == 1 {
        assert(all.subrange(1, 5) =~= last);
    } else if i == n - 1 {
        lemma_populate_accesses_by_index(queue, receive, (n - 1) as nat, 0);
        assert(all.subrange(1 + 4 * i, 5 + 4 * i) =~= last);
    } else {
        lemma_populate_accesses_by_index(queue, receive, (n - 1) as nat, i);
        assert(all.subrange(1 + 4 * i, 5 + 4 * i) =~= before.subrange(1 + 4 * i, 5 + 4 * i));
    }
}

/// The offers of a fresh queue, one by one: the five accesses that offer
/// descriptor `i` at index `i` stand at positions `5 * i` and after.
pub proof fn lemma_pre_offer_accesses_by_index(queue: VirtQueueHandle, n: nat, i: int)
    requires
        0 <= i < n,
    ensures
        queue.pre_offer_accesses(n).len() == 5 * n,
        queue.pre_offer_accesses(n).subrange(5 * i, 5 * i + 5) == queue.offer_accesses(
            i as u16,
            i as u16,
        ),
    decreases n,
{
    let all = queue.pre_offer_accesses(n);
    let before = queue.pre_offer_accesses((n - 1) as nat);
    let last = queue.offer_accesses((n - 1) as u16, (n - 1) as u16);
    if n == 1 {
        assert(all.subrange(0, 5) =~= last);
    } else if i == n - 1 {
        lemma_pre_offer_accesses_by_index(queue, (n - 1) as nat, 0);
        assert(all.subrange(5 * i, 5 * i + 5) =~= last);
    } else {
        lemma_pre_offer_accesses_by_index(queue, (n - 1) as nat, i);
        assert(all.subrange(5 * i, 5 * i + 5) =~= before.subrange(5 * i, 5 * i + 5));
    }
}

/// What setting a queue up leaves in memory, where the register window lies
/// outside the queue: every descriptor points at its own buffer; the
/// available ring holds every descriptor once, descriptor `i` in slot `i`,
/// and its index word counts them all; the used ring is empty.
#[verifier::rlimit(50)]
pub proof fn lemma_configured(
    register: VirtioMMIORegister,
    queue: VirtQueueHandle,
    receive: bool,
    mem: Memory,
    idx: u16,
)
    requires
        register.wf(),
        queue.wf(),
        queue.queue_size() == QUEUE_SIZE,
        idx < QUEUE_SIZE,
        queue.buffer_address(QUEUE_SIZE as int) <= u64::MAX,
        register.base_address() + REGISTER_WINDOW_SIZE <= queue.base_address()
            || queue.buffers_address() <= register.base_address(),
    ensures
        ({
            let after = run(configure_accesses(register, queue, receive), mem);
            &&& describes(
                after,
                queue.descriptor_address(idx as int),
                queue.buffer_address(idx as int),
                receive,
            )
            &&& load16(after, queue.available().idx_address()) == QUEUE_SIZE
            &&& load16(after, queue.available().slot_address(idx as int)) == idx
            &&& load16(after, queue.used().idx_address()) == 0
        }),
{
    lemma_queue_layout(queue);
    let populate = queue.populate_accesses(receive, QUEUE_SIZE as nat);
    let told = seq![
        register.set(Register::QueueNum, QUEUE_SIZE as u32),
        register.set(Register::QueueAlign, (MMIO_QUEUE_ALIGN + 1) as u32),
        register.set(Register::QueuePfn, spec_page_number(queue.base_address())),
    ];
    let offers = queue.pre_offer_accesses(QUEUE_SIZE as nat);
    let m1 = run(populate, mem);
    let m2 = run(told, m1);
    let m3 = run(offers, m2);
    lemma_populated(queue, receive, mem, idx);
    lemma_run_concat(populate, told, mem);
    lemma_run_concat(populate + told, offers.push(Access::Fence), mem);
    lemma_run_push(offers, Access::Fence, m2);
    assert(run(configure_accesses(register, queue, receive), mem) == m3);
    assert forall|a: int|
        queue.base_address() <= a < queue.buffers_address() implies #[trigger] m2(a) == m1(a) by {
        lemma_run_kept(told, m1, a, 1);
        assert(bytes_at(m2, a, 1)[0] == bytes_at(m1, a, 1)[0]);
    }
    lemma_same_bytes(m2, m1, queue.available().idx_address(), 2);
    lemma_pre_offered(queue, m2, QUEUE_SIZE as nat);
    let at = queue.descriptor_address(idx as int);
    lemma_same_bytes(m3, m1, at, 8);
    lemma_same_bytes(m3, m1, at + 8, 4);
    lemma_same_bytes(m3, m1, at + 12, 2);
    lemma_same_bytes(m3, m1, at + 14, 2);
    lemma_same_bytes(m3, m1, queue.used().idx_address(), 2);
}

} // verus!
