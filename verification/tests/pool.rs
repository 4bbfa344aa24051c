use pdf_viewer::BufferPool;

#[test]
fn empty_pool_hands_out_nothing() {
    let mut pool = BufferPool::new();
    assert_eq!(pool.take(0), None);
}

#[test]
fn buffer_given_back_is_taken_again() {
    let mut pool = BufferPool::new();
    pool.give_back(3, vec![1, 2, 3]);
    assert_eq!(pool.take(3), Some(vec![1, 2, 3]));
    assert_eq!(pool.take(3), None);
}

#[test]
fn last_given_back_comes_first_and_rest_is_dropped() {
    let mut pool = BufferPool::new();
    pool.give_back(1, vec![1]);
    pool.give_back(1, vec![2]);
    assert_eq!(pool.take(1), Some(vec![2]));
    assert_eq!(pool.take(1), None);
}

#[test]
fn pages_keep_their_own_buffers() {
    let mut pool = BufferPool::new();
    pool.give_back(1, vec![1]);
    pool.give_back(2, vec![2]);
    assert_eq!(pool.take(1), Some(vec![1]));
    assert_eq!(pool.take(2), Some(vec![2]));
}
