use vstd::prelude::*;

verus! {

/// Padding that brings `addr` up to the next multiple of `align`.
pub open spec fn pad_for(addr: int, align: int) -> int {
    (align - addr % align) % align
}

/// The boundary every native object is placed on: the size of a pointer.
pub open spec fn word() -> int {
    vstd::layout::size_of::<usize>() as int
}

/// Returns the size of a pointer (that of `usize`), the boundary native objects are placed on.
pub fn word_align() -> (r: usize)
    ensures
        r as int == word(),
        r == 4 || r == 8,
{
    proof {
        broadcast use vstd::layout::layout_of_primitives;
    }
    core::mem::size_of::<usize>()
}

/// Returns how many bytes must be skipped from `addr` to reach a multiple of `align`.
pub fn align_offset(addr: usize, align: usize) -> (r: usize)
    requires
        align > 0,
    ensures
        r as int == pad_for(addr as int, align as int),
        r < align,
        (addr + r) % (align as int) == 0,
{
    let rem = addr % align;
    proof {
        vstd::arithmetic::div_mod::lemma_mod_self_0(align as int);
        if rem != 0 {
            vstd::arithmetic::div_mod::lemma_small_mod((align - rem) as nat, align as nat);
            vstd::arithmetic::div_mod::lemma_add_mod_noop(
                addr as int,
                (align - rem) as int,
                align as int,
            );
            vstd::arithmetic::div_mod::lemma_mod_self_0(align as int);
        }
    }
    if rem == 0 {
        0
    } else {
        align - rem
    }
}

/// Offset, from `addr`, of a lock's native object.
pub open spec fn lock_offset(addr: usize) -> int {
    pad_for(addr as int, word())
}

/// Bytes a lock whose native object takes `native` bytes needs from `addr`,
/// padding included; with no address, the size without padding.
pub open spec fn lock_size_spec(addr: Option<usize>, native: int) -> int {
    match addr {
        Some(a) => lock_offset(a) + native,
        None => native,
    }
}

/// Offset, from `addr`, of an event's own state: the event's mutex comes
/// first, then padding to the next word.
pub open spec fn event_state_offset(addr: usize, mutex_native: int) -> int {
    let m = lock_offset(addr) + mutex_native;
    m + pad_for(addr + m, word())
}

/// Bytes an event needs from `addr`: its mutex, padding, then `state` bytes of
/// its own; with no address, the size without padding.
pub open spec fn event_size_spec(addr: Option<usize>, mutex_native: int, state: int) -> int {
    match addr {
        Some(a) => {
            let m = lock_size_spec(addr, mutex_native);
            m + pad_for(a + m, word()) + state
        },
        None => mutex_native + state,
    }
}

/// Where a lock goes in the shared bytes.
#[derive(Clone, Copy, Debug, PartialEq, Eq, Structural)]
pub struct LockPlacement {
    /// Offset of the native object from the start of the bytes.
    pub offset: usize,
    /// Bytes consumed, padding included.
    pub used: usize,
}

/// Where an event goes in the shared bytes.
#[derive(Clone, Copy, Debug, PartialEq, Eq, Structural)]
pub struct EventPlacement {
    /// Where the event's mutex goes.
    pub mutex: LockPlacement,
    /// Offset of the event's own state from the start of the bytes.
    pub state_offset: usize,
    /// Bytes consumed, padding included.
    pub used: usize,
}

/// Returns how many bytes a lock whose native object takes `native` bytes
/// needs when placed at `addr` (or without padding, when no address is given).
pub fn lock_size_of(addr: Option<usize>, native: usize) -> (r: usize)
    requires
        native + word() <= usize::MAX,
    ensures
        r as int == lock_size_spec(addr, native as int),
{
    match addr {
        Some(a) => align_offset(a, word_align()) + native,
        None => native,
    }
}

/// Places a lock whose native object takes `native` bytes at `addr`: the
/// object starts at the first word boundary.
pub fn place_lock(addr: usize, native: usize) -> (r: LockPlacement)
    requires
        native + word() <= usize::MAX,
    ensures
        r.offset as int == lock_offset(addr),
        r.used as int == r.offset + native,
        (addr + r.offset) % word() == 0,
{
    let offset = align_offset(addr, word_align());
    LockPlacement { offset, used: offset + native }
}

/// Returns the padding needed at `addr + used`, computed without forming the sum.
fn pad_after(addr: usize, used: usize, align: usize) -> (r: usize)
    requires
        align > 0,
        2 * align <= usize::MAX,
    ensures
        r as int == pad_for(addr + used, align as int),
        r < align,
{
    let rem = (addr % align + used % align) % align;
    proof {
        vstd::arithmetic::div_mod::lemma_add_mod_noop(addr as int, used as int, align as int);
        vstd::arithmetic::div_mod::lemma_small_mod(rem as nat, align as nat);
    }
    align_offset(rem, align)
}

/// Returns how many bytes an event needs at `addr` (or without padding, when
/// no address is given): its mutex of `mutex_native` bytes, padding, then
/// `state` bytes of its own.
pub fn event_size_of(addr: Option<usize>, mutex_native: usize, state: usize) -> (r: usize)
    requires
        mutex_native + state + 2 * word() <= usize::MAX,
    ensures
        r as int == event_size_spec(addr, mutex_native as int, state as int),
{
    let w = word_align();
    match addr {
        Some(a) => {
            let m = lock_size_of(addr, mutex_native);
            m + pad_after(a, m, w) + state
        },
        None => mutex_native + state,
    }
}

/// Places an event at `addr`: its mutex of `mutex_native` bytes first, then,
/// from the next word boundary, `state` bytes of its own.
pub fn place_event(addr: usize, mutex_native: usize, state: usize) -> (r: EventPlacement)
    requires
        mutex_native + state + 2 * word() <= usize::MAX,
    ensures
        r.mutex.offset as int == lock_offset(addr),
        r.mutex.used as int == r.mutex.offset + mutex_native,
        r.state_offset as int == event_state_offset(addr, mutex_native as int),
        r.used as int == r.state_offset + state,
        (addr + r.state_offset) % word() == 0,
{
    let w = word_align();
    let mutex = place_lock(addr, mutex_native);
    let pad = pad_after(addr, mutex.used, w);
    proof {
        let s = (addr + mutex.used) as int;
        vstd::arithmetic::div_mod::lemma_add_mod_noop(s, pad as int, w as int);
        vstd::arithmetic::div_mod::lemma_mod_self_0(w as int);
        vstd::arithmetic::div_mod::lemma_mod_bound(s, w as int);
    }
    let state_offset = mutex.used + pad;
    EventPlacement { mutex, state_offset, used: state_offset + state }
}

/// Bytes a busy-spin event takes: its signal byte, then its reset-mode byte.
/// Bytes need no alignment, so the address adds no padding.
pub open spec fn busy_event_size_spec(addr: Option<usize>) -> int {
    2
}

/// Returns how many bytes a busy-spin event needs at `addr`, which is also
/// what placing it there consumes.
pub fn busy_event_size_of(addr: Option<usize>) -> (r: usize)
    ensures
        r as int == busy_event_size_spec(addr),
{
    2
}

/// The layout is fixed by the address alone, and what placing a primitive
/// consumes is exactly the size asked for at that address: a lock consumes
/// `lock_size_spec(Some(addr), ..)` bytes, an event
/// `event_size_spec(Some(addr), ..)`; both are at least the size asked for
/// without an address.
pub proof fn lemma_placement_uses_size_of(addr: usize, mutex_native: nat, state: nat)
    ensures
        lock_offset(addr) + mutex_native == lock_size_spec(Some(addr), mutex_native as int),
        event_state_offset(addr, mutex_native as int) + state == event_size_spec(
            Some(addr),
            mutex_native as int,
            state as int,
        ),
        lock_size_spec(Some(addr), mutex_native as int) >= lock_size_spec(
            None,
            mutex_native as int,
        ),
        event_size_spec(Some(addr), mutex_native as int, state as int) >= event_size_spec(
            None,
            mutex_native as int,
            state as int,
        ),
{
    assert(word() > 0) by {
        broadcast use vstd::layout::layout_of_primitives;
    }
    vstd::arithmetic::div_mod::lemma_mod_bound(addr as int, word());
    let m = lock_offset(addr) + mutex_native;
    vstd::arithmetic::div_mod::lemma_mod_bound(addr + m, word());
    vstd::arithmetic::div_mod::lemma_mod_bound(word() - (addr as int) % word(), word());
    vstd::arithmetic::div_mod::lemma_mod_bound(word() - (addr + m) % word(), word());
}

} // verus!
