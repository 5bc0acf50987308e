use bsr::buffer::DropOldestBuffer;

#[test]
fn push_below_capacity_no_drop() {
    let mut buf: DropOldestBuffer<i32> = DropOldestBuffer::new(4);
    assert!(!buf.push(1));
    assert!(!buf.push(2));
    assert_eq!(buf.dropped_count(), 0);
    assert_eq!(buf.len(), 2);
}

#[test]
fn push_at_capacity_drops_oldest() {
    let mut buf: DropOldestBuffer<i32> = DropOldestBuffer::new(3);
    buf.push(1);
    buf.push(2);
    buf.push(3);
    let dropped = buf.push(4);
    assert!(dropped, "expected a drop to occur");
    assert_eq!(buf.dropped_count(), 1);
    assert_eq!(buf.len(), 3);
    assert_eq!(buf.pop(), Some(2));
    assert_eq!(buf.pop(), Some(3));
    assert_eq!(buf.pop(), Some(4));
    assert!(buf.is_empty());
}

#[test]
fn pop_empty_returns_none() {
    let mut buf: DropOldestBuffer<u8> = DropOldestBuffer::new(8);
    assert_eq!(buf.pop(), None);
}

#[test]
fn the_newest_items_stay_in_order() {
    let mut buf: DropOldestBuffer<u32> = DropOldestBuffer::new(3);
    for i in 0..10 {
        assert_eq!(buf.push(i), i >= 3);
    }
    assert_eq!(buf.capacity(), 3);
    assert_eq!(buf.dropped_count(), 7);
    assert_eq!((buf.pop(), buf.pop(), buf.pop(), buf.pop()), (Some(7), Some(8), Some(9), None));
}

#[test]
fn items_leave_in_the_order_they_came() {
    let mut buf: DropOldestBuffer<u32> = DropOldestBuffer::new(3);
    let mut handed_out = Vec::new();
    for n in 0..10 {
        buf.push(n);
        if n % 4 == 3 {
            handed_out.extend(buf.pop());
        }
    }
    assert_eq!(handed_out, [1, 5]);
    while let Some(n) = buf.pop() {
        handed_out.push(n);
    }
    assert_eq!(handed_out, [1, 5, 7, 8, 9]);
    assert_eq!(buf.dropped_count() as usize + handed_out.len(), 10, "every item is accounted for");
}
