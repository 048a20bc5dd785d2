use compio_lite::fallback_buffer_pool::BufferPool;

#[test]
fn new_pool_hands_out_zeroed_buffers() {
    let mut pool = BufferPool::new(8, 2);
    let mut first = pool.pick_buffer().unwrap();
    assert_eq!(first.deref(), &[] as &[u8]);
    first.set_len(8);
    assert_eq!(first.deref(), &[0u8; 8]);
    let second = pool.pick_buffer().unwrap();
    assert!(pool.pick_buffer().is_none());
    pool.add_buffer(first);
    pool.add_buffer(second);
    assert!(pool.pick_buffer().is_some());
}

#[test]
fn empty_pool_gives_nothing() {
    let mut pool = BufferPool::new(16, 0);
    assert!(pool.pick_buffer().is_none());
}

#[test]
fn buffers_come_back_first_in_first_out() {
    let mut pool = BufferPool::new(4, 3);
    let mut a = pool.pick_buffer().unwrap();
    let mut b = pool.pick_buffer().unwrap();
    a.set_len(1);
    a.deref_mut()[0] = 1;
    b.set_len(1);
    b.deref_mut()[0] = 2;
    // `b` goes back first, then `a`: the untouched third buffer is picked
    // first, then `b`, then `a`.
    pool.add_buffer(b);
    pool.add_buffer(a);
    let mut c = pool.pick_buffer().unwrap();
    c.set_len(1);
    assert_eq!(c.deref(), &[0u8]);
    let mut d = pool.pick_buffer().unwrap();
    d.set_len(1);
    assert_eq!(d.deref(), &[2u8]);
    let mut e = pool.pick_buffer().unwrap();
    e.set_len(1);
    assert_eq!(e.deref(), &[1u8]);
    assert!(pool.pick_buffer().is_none());
}

#[test]
fn pick_then_return_keeps_the_count() {
    let mut pool = BufferPool::new(2, 5);
    let buffer = pool.pick_buffer().unwrap();
    pool.add_buffer(buffer);
    let mut n = 0;
    let mut out = Vec::new();
    while let Some(buffer) = pool.pick_buffer() {
        out.push(buffer);
        n += 1;
    }
    assert_eq!(n, 5);
}

#[test]
fn writes_stay_in_the_filled_prefix() {
    let mut pool = BufferPool::new(4, 1);
    let mut buffer = pool.pick_buffer().unwrap();
    buffer.set_len(2);
    buffer.deref_mut().copy_from_slice(&[9, 8]);
    assert_eq!(buffer.deref(), &[9u8, 8]);
    buffer.set_len(4);
    assert_eq!(buffer.deref(), &[9u8, 8, 0, 0]);
    buffer.set_len(0);
    assert_eq!(buffer.deref(), &[] as &[u8]);
    pool.add_buffer(buffer);
    let mut again = pool.pick_buffer().unwrap();
    again.set_len(4);
    assert_eq!(again.deref(), &[9u8, 8, 0, 0]);
}

#[test]
fn borrowed_buffer_reports_its_lengths() {
    let mut pool = BufferPool::new(6, 1);
    let mut buffer = pool.pick_buffer().unwrap();
    assert_eq!(buffer.filled(), 0);
    assert_eq!(buffer.size(), 6);
    buffer.set_len(3);
    assert_eq!(buffer.filled(), 3);
    assert_eq!(buffer.size(), 6);
}

#[test]
fn a_run_of_loans_keeps_every_buffer() {
    let mut pool = BufferPool::new(3, 3);
    let a = pool.pick_buffer().unwrap();
    let b = pool.pick_buffer().unwrap();
    pool.add_buffer(a);
    let c = pool.pick_buffer().unwrap();
    let d = pool.pick_buffer().unwrap();
    pool.add_buffer(b);
    pool.add_buffer(d);
    pool.add_buffer(c);
    let mut count = 0;
    while let Some(buffer) = pool.pick_buffer() {
        assert_eq!(buffer.size(), 3);
        count += 1;
    }
    assert_eq!(count, 3);
}
