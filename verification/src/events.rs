//! Consuming the controller's event ring: a batch of event words is copied
//! out of the producer-owned ring before it is acknowledged, and the
//! consumer cursor advances by exactly the acknowledged byte count.

use vstd::prelude::*;
use crate::bytes::{get_le32, read_le32};
use crate::mmio::{GEVNTCOUNT_MASK, GEVNTSIZ_INTMASK, GEVNTSIZ_SIZE_MASK};

verus! {

/// The event word at byte offset `offset` of the ring.
pub open spec fn ring_word(ring: Seq<u8>, offset: int) -> u32 {
    read_le32(ring, offset)
}

/// The events of a batch of `count` bytes starting at `start`: word `k`
/// is read at `(start + 4k) mod size`.
pub open spec fn batch_events(ring: Seq<u8>, start: int, count: int) -> Seq<u32> {
    Seq::new((count / 4) as nat, |k: int| ring_word(ring, (start + 4 * k) % (ring.len() as int)))
}

/// A four-byte-aligned position taken modulo a four-byte-aligned ring size
/// leaves room for a whole word.
proof fn lemma_aligned_offset(a: int, size: int)
    requires
        a >= 0,
        size > 0,
        a % 4 == 0,
        size % 4 == 0,
    ensures
        a % size + 4 <= size,
{
    let d = a / size;
    let r = a % size;
    vstd::arithmetic::div_mod::lemma_fundamental_div_mod(a, size);
    let q = size / 4;
    assert(a == 4 * (q * d) + r) by (nonlinear_arith)
        requires
            a == size * d + r,
            size == 4 * q,
    ;
    assert(r % 4 == 0) by (nonlinear_arith)
        requires
            a == 4 * (q * d) + r,
            a % 4 == 0,
            0 <= r,
    ;
    assert(r + 4 <= size) by (nonlinear_arith)
        requires
            r % 4 == 0,
            size % 4 == 0,
            0 <= r < size,
    ;
}

/// A batch read out of the ring, and where the consumer cursor stands after
/// it.
pub struct EventBatch {
    pub events: Vec<u32>,
    pub next_offset: usize,
}

/// The byte count a GEVNTCOUNT read reports.
pub fn pending_event_bytes(gevntcount: u32) -> (count: u32)
    ensures
        count == gevntcount & GEVNTCOUNT_MASK,
        count % 4 == 0,
        count <= 0xfffc,
{
    let count = gevntcount & GEVNTCOUNT_MASK;
    assert(count % 4 == 0 && count <= 0xfffc) by (bit_vector)
        requires
            count == gevntcount & 0xfffcu32,
    ;
    count
}

/// GEVNTSIZ with the event interrupt masked, and unmasked again.
pub fn event_size_words(size: usize) -> (r: (u32, u32))
    ensures
        r == (GEVNTSIZ_INTMASK | ((size as u32) & GEVNTSIZ_SIZE_MASK), (size as u32) & GEVNTSIZ_SIZE_MASK),
{
    (GEVNTSIZ_INTMASK | ((size as u32) & GEVNTSIZ_SIZE_MASK), (size as u32) & GEVNTSIZ_SIZE_MASK)
}

/// Copy the `count` bytes of events that start at the cursor `start` out of
/// the ring (`ring` is the whole ring, a multiple of four bytes long).
pub fn snapshot_events(ring: &[u8], start: usize, count: u32) -> (b: EventBatch)
    requires
        ring@.len() > 0,
        ring@.len() % 4 == 0,
        start % 4 == 0,
        count % 4 == 0,
        count <= ring@.len(),
        start + count <= usize::MAX,
    ensures
        b.events@ == batch_events(ring@, start as int, count as int),
        b.next_offset == (start + count) % (ring@.len() as int),
{
    let size = ring.len();
    let mut events: Vec<u32> = Vec::new();
    let mut copied: usize = 0;
    while copied < count as usize
        invariant
            size == ring@.len(),
            size > 0,
            size % 4 == 0,
            start % 4 == 0,
            count % 4 == 0,
            copied % 4 == 0,
            copied <= count,
            count <= size,
            start + count <= usize::MAX,
            events@.len() == copied / 4,
            forall|k: int|
                0 <= k < copied / 4 ==> #[trigger] events@[k] == ring_word(
                    ring@,
                    (start + 4 * k) % (size as int),
                ),
        decreases count - copied,
    {
        let offset = (start + copied) % size;
        proof {
            lemma_aligned_offset((start + copied) as int, size as int);
        }
        let raw = get_le32(ring, offset);
        events.push(raw);
        assert(4 * (copied / 4) == copied);
        copied += 4;
    }
    EventBatch { events, next_offset: (start + count as usize) % size }
}

} // verus!
