use std::collections::HashMap;
use vstd::prelude::*;

verus! {

broadcast use vstd::std_specs::hash::group_hash_axioms;

/// Pixel buffers kept for reuse, a stack of them for each page index.
///
/// A rendered page image owns its pixel buffer; when the image is dropped the buffer
/// comes back here, and the next render of the same page takes it again instead of
/// allocating a new one.
#[derive(Debug)]
pub struct BufferPool {
    stacks: HashMap<usize, Vec<Vec<u8>>>,
}

/// The buffers kept for `page` in the pool `pool`, the most recently returned last.
pub open spec fn stack_of(pool: Map<usize, Seq<Vec<u8>>>, page: usize) -> Seq<Vec<u8>> {
    if pool.contains_key(page) {
        pool[page]
    } else {
        Seq::empty()
    }
}

impl View for BufferPool {
    type V = Map<usize, Seq<Vec<u8>>>;

    closed spec fn view(&self) -> Map<usize, Seq<Vec<u8>>> {
        Map::new(|k: usize| self.stacks@.contains_key(k), |k: usize| self.stacks@[k]@)
    }
}

impl BufferPool {
    /// An empty pool.
    pub fn new() -> (pool: BufferPool)
        ensures
            pool@ == Map::<usize, Seq<Vec<u8>>>::empty(),
    {
        let pool = BufferPool { stacks: HashMap::new() };
        assert(pool@ =~= Map::<usize, Seq<Vec<u8>>>::empty());
        pool
    }

    /// Puts `buffer` back on the stack of page `page`.
    pub fn give_back(&mut self, page: usize, buffer: Vec<u8>)
        ensures
            final(self)@ == old(self)@.insert(page, stack_of(old(self)@, page).push(buffer)),
    {
        let mut stack = match self.stacks.remove(&page) {
            Some(stack) => stack,
            None => Vec::new(),
        };
        stack.push(buffer);
        self.stacks.insert(page, stack);
        assert(self@ =~= old(self)@.insert(page, stack_of(old(self)@, page).push(buffer)));
    }

    /// Takes the stack of page `page` out of the pool and hands out the buffer that
    /// came back last, if there is one; the rest of that stack is let go.
    pub fn take(&mut self, page: usize) -> (buffer: Option<Vec<u8>>)
        ensures
            final(self)@ == old(self)@.remove(page),
            buffer == (if stack_of(old(self)@, page).len() > 0 {
                Some(stack_of(old(self)@, page).last())
            } else {
                None
            }),
    {
        let taken = self.stacks.remove(&page);
        assert(self@ =~= old(self)@.remove(page));
        match taken {
            Some(mut stack) => stack.pop(),
            None => None,
        }
    }
}

/// A buffer given back for a page is the one that the next take for that page hands
/// out, and afterwards nothing of that page is left in the pool.
pub proof fn lemma_take_returns_last_given(
    pool: Map<usize, Seq<Vec<u8>>>,
    page: usize,
    buffer: Vec<u8>,
)
    ensures
        ({
            let after = pool.insert(page, stack_of(pool, page).push(buffer));
            &&& stack_of(after, page).len() > 0
            &&& stack_of(after, page).last() == buffer
            &&& !after.remove(page).contains_key(page)
        }),
{
}

/// Giving back or taking buffers of one page leaves the stacks of all other pages
/// as they were.
pub proof fn lemma_pages_independent(
    pool: Map<usize, Seq<Vec<u8>>>,
    page: usize,
    other: usize,
    buffer: Vec<u8>,
)
    requires
        page != other,
    ensures
        stack_of(pool.insert(page, stack_of(pool, page).push(buffer)), other) == stack_of(
            pool,
            other,
        ),
        stack_of(pool.remove(page), other) == stack_of(pool, other),
{
}

} // verus!
