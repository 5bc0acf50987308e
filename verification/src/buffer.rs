//! A bounded buffer between capture and encoder that gives up its oldest item when full.
use std::collections::VecDeque;
use vstd::prelude::*;

verus! {

/// A bounded first-in first-out buffer. Pushing onto a full buffer evicts the oldest item,
/// and the evictions are counted.
pub struct DropOldestBuffer<T> {
    buf: VecDeque<T>,
    capacity: usize,
    dropped_count: u64,
}

/// What is kept of `items` by a buffer for `capacity` items: the last ones.
pub open spec fn newest<T>(items: Seq<T>, capacity: nat) -> Seq<T> {
    if items.len() <= capacity {
        items
    } else {
        items.subrange(items.len() - capacity, items.len() as int)
    }
}

impl<T> DropOldestBuffer<T> {
    /// The buffer has room for at least one item and holds no more than it has room for.
    pub closed spec fn wf(&self) -> bool {
        0 < self.capacity && self.buf@.len() <= self.capacity
    }

    /// The items in the buffer, oldest first.
    pub closed spec fn items(&self) -> Seq<T> {
        self.buf@
    }

    /// How many items the buffer holds at most.
    pub closed spec fn limit(&self) -> nat {
        self.capacity as nat
    }

    /// How many items have been evicted.
    pub closed spec fn dropped(&self) -> nat {
        self.dropped_count as nat
    }

    /// Creates an empty buffer for `capacity` items.
    pub fn new(capacity: usize) -> (r: Self)
        requires
            capacity > 0,
        ensures
            r.wf(),
            r.items() == Seq::<T>::empty(),
            r.limit() == capacity,
            r.dropped() == 0,
    {
        DropOldestBuffer { buf: VecDeque::with_capacity(capacity), capacity, dropped_count: 0 }
    }

    /// Appends `item`. If the buffer is at capacity, the oldest item is dropped first and
    /// counted. Returns `true` if an item was dropped to make room.
    pub fn push(&mut self, item: T) -> (dropped: bool)
        requires
            old(self).wf(),
            old(self).items().len() == old(self).limit() ==> old(self).dropped() < u64::MAX,
        ensures
            final(self).wf(),
            dropped == (old(self).items().len() == old(self).limit()),
            final(self).items() == newest(old(self).items().push(item), old(self).limit()),
            final(self).items() == after_op(
                old(self).items(),
                BufferOp::Push(item),
                old(self).limit(),
            ),
            final(self).limit() == old(self).limit(),
            final(self).dropped() == old(self).dropped() + (if dropped {
                1nat
            } else {
                0
            }),
    {
        if self.buf.len() >= self.capacity {
            let _ = self.buf.pop_front();
            self.dropped_count = self.dropped_count + 1;
            self.buf.push_back(item);
            true
        } else {
            self.buf.push_back(item);
            false
        }
    }

    /// Removes and returns the oldest item.
    pub fn pop(&mut self) -> (r: Option<T>)
        requires
            old(self).wf(),
        ensures
            final(self).wf(),
            final(self).limit() == old(self).limit(),
            final(self).dropped() == old(self).dropped(),
            final(self).items() == after_op(old(self).items(), BufferOp::Pop, old(self).limit()),
            match r {
                Some(item) => old(self).items().len() > 0 && item == old(self).items()[0]
                    && final(self).items() == old(self).items().drop_first(),
                None => old(self).items().len() == 0 && final(self).items() == old(self).items(),
            },
    {
        self.buf.pop_front()
    }

    /// The number of items in the buffer.
    pub fn len(&self) -> (r: usize)
        requires
            self.wf(),
        ensures
            r == self.items().len(),
            r <= self.limit(),
    {
        self.buf.len()
    }

    /// `true` when the buffer holds no items.
    pub fn is_empty(&self) -> (r: bool)
        ensures
            r == (self.items().len() == 0),
    {
        self.buf.len() == 0
    }

    /// The number of items dropped since the buffer was created.
    pub fn dropped_count(&self) -> (r: u64)
        ensures
            r == self.dropped(),
    {
        self.dropped_count
    }

    /// The number of items that the buffer can hold before it drops one.
    pub fn capacity(&self) -> (r: usize)
        requires
            self.wf(),
        ensures
            r == self.limit(),
            r > 0,
    {
        self.capacity
    }
}

/// What a buffer holds after the items of `pushed` have been pushed onto `items` one by one.
pub open spec fn pushed_all<T>(items: Seq<T>, pushed: Seq<T>, capacity: nat) -> Seq<T>
    decreases pushed.len(),
{
    if pushed.len() == 0 {
        items
    } else {
        newest(pushed_all(items, pushed.drop_last(), capacity).push(pushed.last()), capacity)
    }
}

/// How many items are evicted while those of `pushed` are pushed onto `items`.
pub open spec fn dropped_by<T>(items: Seq<T>, pushed: Seq<T>, capacity: nat) -> nat
    decreases pushed.len(),
{
    if pushed.len() == 0 {
        0
    } else {
        dropped_by(items, pushed.drop_last(), capacity) + (if pushed_all(
            items,
            pushed.drop_last(),
            capacity,
        ).len() == capacity {
            1nat
        } else {
            0
        })
    }
}

/// Whatever is pushed, the buffer holds the newest items in their order, and every item is
/// either held or counted as dropped.
pub proof fn a_buffer_keeps_the_newest_items<T>(items: Seq<T>, pushed: Seq<T>, capacity: nat)
    requires
        0 < capacity,
        items.len() <= capacity,
    ensures
        pushed_all(items, pushed, capacity) == newest(items + pushed, capacity),
        pushed_all(items, pushed, capacity).len() + dropped_by(items, pushed, capacity)
            == items.len() + pushed.len(),
    decreases pushed.len(),
{
    if pushed.len() == 0 {
        assert(items + pushed =~= items);
    } else {
        let before = pushed.drop_last();
        a_buffer_keeps_the_newest_items(items, before, capacity);
        assert(items + pushed =~= (items + before).push(pushed.last()));
        assert(newest(newest(items + before, capacity).push(pushed.last()), capacity) =~= newest(
            (items + before).push(pushed.last()),
            capacity,
        ));
    }
}

/// What is done to a buffer.
pub ghost enum BufferOp<T> {
    Push(T),
    Pop,
}

/// The items in a buffer after an operation.
pub open spec fn after_op<T>(items: Seq<T>, op: BufferOp<T>, capacity: nat) -> Seq<T> {
    match op {
        BufferOp::Push(item) => newest(items.push(item), capacity),
        BufferOp::Pop => if items.len() > 0 {
            items.drop_first()
        } else {
            items
        },
    }
}

/// The item that leaves with an operation, if one does: a pop hands it out, a push evicts it.
pub open spec fn leaving<T>(items: Seq<T>, op: BufferOp<T>, capacity: nat) -> Seq<T> {
    let full = op is Push && items.len() == capacity;
    if full || (op is Pop && items.len() > 0) {
        seq![items[0]]
    } else {
        Seq::empty()
    }
}

/// The item that an operation brings, if it brings one.
pub open spec fn arriving<T>(op: BufferOp<T>) -> Seq<T> {
    match op {
        BufferOp::Push(item) => seq![item],
        BufferOp::Pop => Seq::empty(),
    }
}

/// The items in a buffer after some operations.
pub open spec fn after_ops<T>(items: Seq<T>, ops: Seq<BufferOp<T>>, capacity: nat) -> Seq<T>
    decreases ops.len(),
{
    if ops.len() == 0 {
        items
    } else {
        after_op(after_ops(items, ops.drop_last(), capacity), ops.last(), capacity)
    }
}

/// The items that left during some operations, in order.
pub open spec fn all_leaving<T>(items: Seq<T>, ops: Seq<BufferOp<T>>, capacity: nat) -> Seq<T>
    decreases ops.len(),
{
    if ops.len() == 0 {
        Seq::empty()
    } else {
        all_leaving(items, ops.drop_last(), capacity) + leaving(
            after_ops(items, ops.drop_last(), capacity),
            ops.last(),
            capacity,
        )
    }
}

/// The items that some operations brought, in order.
pub open spec fn all_arriving<T>(ops: Seq<BufferOp<T>>) -> Seq<T>
    decreases ops.len(),
{
    if ops.len() == 0 {
        Seq::empty()
    } else {
        all_arriving(ops.drop_last()) + arriving(ops.last())
    }
}

/// However pushes and pops follow each other, nothing is lost, doubled or out of order: what has
/// left, handed out or evicted, and behind it what is still held, is what was there and behind
/// that what was pushed.
pub proof fn items_leave_as_they_came<T>(items: Seq<T>, ops: Seq<BufferOp<T>>, capacity: nat)
    requires
        0 < capacity,
        items.len() <= capacity,
    ensures
        all_leaving(items, ops, capacity) + after_ops(items, ops, capacity) == items
            + all_arriving(ops),
        after_ops(items, ops, capacity).len() <= capacity,
    decreases ops.len(),
{
    if ops.len() == 0 {
        assert(Seq::<T>::empty() + items =~= items + Seq::<T>::empty());
    } else {
        let before = ops.drop_last();
        let op = ops.last();
        items_leave_as_they_came(items, before, capacity);
        let held = after_ops(items, before, capacity);
        let gone = all_leaving(items, before, capacity);
        assert(leaving(held, op, capacity) + after_op(held, op, capacity) =~= held + arriving(op));
        assert((gone + leaving(held, op, capacity)) + after_op(held, op, capacity) =~= gone + (
        leaving(held, op, capacity) + after_op(held, op, capacity)));
        assert(gone + (held + arriving(op)) =~= (gone + held) + arriving(op));
        assert((items + all_arriving(before)) + arriving(op) =~= items + (all_arriving(before)
            + arriving(op)));
    }
}

/// What is kept of more items than there is room for are the last of them, in their order; where
/// there is room for all, all are kept.
pub proof fn the_last_items_are_kept<T>(items: Seq<T>, capacity: nat, i: int)
    ensures
        newest(items, capacity).len() == (if items.len() < capacity {
            items.len()
        } else {
            capacity
        }),
        0 <= i < newest(items, capacity).len() ==> newest(items, capacity)[i] == items[if items.len()
            < capacity {
            i
        } else {
            items.len() - capacity + i
        }],
{
}

} // verus!
