use vstd::prelude::*;

verus! {

/// How the pages of a document are arranged on screen.
#[derive(Debug, Clone, Copy, PartialEq, Eq, Structural)]
pub enum PageLayout {
    /// One page per row, many rows
    SinglePage,
    /// Two pages per row, many rows
    TwoPage,
    /// Two pages per row, many rows, except for the first page which is on its own
    TwoPageTitlePage,
    /// Only one page on the screen at a time
    Presentation,
}

/// Why a page could not be picked.
#[derive(Debug, Clone, Copy, PartialEq, Eq, Structural)]
pub enum LayoutError {
    /// The document has no pages at all.
    NoPages,
    /// The page asked for is just past the last page.
    PageOutOfRange,
}

impl Default for PageLayout {
    fn default() -> (layout: PageLayout)
        ensures
            layout == PageLayout::SinglePage,
    {
        PageLayout::SinglePage
    }
}

/// Whether `n` is odd, by `num::Integer::is_odd`. Trusted: the contract claims that
/// it answers `n % 2 == 1`, which is what the num-integer source computes for
/// unsigned integers (`!(n % 2 == 0)`).
#[verifier::external_body]
fn is_odd(n: usize) -> (odd: bool)
    ensures
        odd == (n % 2 == 1),
{
    num::Integer::is_odd(&n)
}

impl PageLayout {
    /// How many pages "page up" moves back from the current page.
    pub open spec fn step_up(self) -> nat {
        match self {
            PageLayout::SinglePage => 1,
            PageLayout::TwoPage => 2,
            PageLayout::TwoPageTitlePage => 2,
            PageLayout::Presentation => 1,
        }
    }

    /// How many pages "page down" moves forward from page `current`.
    pub open spec fn step_down(self, current: int) -> nat {
        match self {
            PageLayout::SinglePage => 1,
            PageLayout::TwoPage => 2,
            PageLayout::TwoPageTitlePage => if current == 0 { 1 } else { 2 },
            PageLayout::Presentation => 1,
        }
    }

    /// The page that "page up" shows, in a document of `page_count` pages.
    pub open spec fn above_target(self, current: int, page_count: int) -> int {
        let stepped = current - self.step_up();
        if stepped < 0 {
            0
        } else if stepped > page_count - 1 {
            page_count - 1
        } else {
            stepped
        }
    }

    /// The page that "page down" shows, in a document of `page_count` pages.
    pub open spec fn below_target(self, current: int, page_count: int) -> int {
        let stepped = current + self.step_down(current);
        if stepped > page_count - 1 {
            page_count - 1
        } else {
            stepped
        }
    }

    /// Page `page` is the last one of its row.
    pub open spec fn closes_row(self, page: int) -> bool {
        match self {
            PageLayout::SinglePage => true,
            PageLayout::TwoPage => page % 2 == 1,
            PageLayout::TwoPageTitlePage => page == 0 || (page - 1) % 2 == 1,
            PageLayout::Presentation => true,
        }
    }

    /// Page `page` is the first one of its row.
    pub open spec fn opens_row(self, page: int) -> bool {
        page == 0 || self.closes_row(page - 1)
    }

    /// The index of the page shown after "page up" from page `current`: one row up,
    /// never before the first page.
    pub fn index_above(&self, current: usize, page_count: usize) -> (idx: usize)
        requires
            current < page_count,
        ensures
            idx == self.above_target(current as int, page_count as int),
    {
        let stepped = match self {
            PageLayout::SinglePage => current.saturating_sub(1),
            PageLayout::TwoPage => current.saturating_sub(2),
            PageLayout::TwoPageTitlePage => current.saturating_sub(2),
            PageLayout::Presentation => current.saturating_sub(1),
        };
        let last = page_count - 1;
        if stepped > last {
            last
        } else {
            stepped
        }
    }

    /// The index of the page shown after "page down" from page `current`: one row
    /// down, never past the last page.
    pub fn index_below(&self, current: usize, page_count: usize) -> (idx: usize)
        requires
            current < page_count,
        ensures
            idx == self.below_target(current as int, page_count as int),
    {
        let step: usize = match self {
            PageLayout::SinglePage => 1,
            PageLayout::TwoPage => 2,
            PageLayout::TwoPageTitlePage => if current == 0 {
                1
            } else {
                2
            },
            PageLayout::Presentation => 1,
        };
        let last = page_count - 1;
        if last - current >= step {
            current + step
        } else {
            last
        }
    }

    /// Whether page `page` is the last one of its row, so that the next page starts
    /// a new row.
    pub fn ends_row(&self, page: usize) -> (last_in_row: bool)
        ensures
            last_in_row == self.closes_row(page as int),
    {
        match self {
            PageLayout::SinglePage => true,
            PageLayout::TwoPage => is_odd(page),
            PageLayout::TwoPageTitlePage => page == 0 || is_odd(page - 1),
            PageLayout::Presentation => true,
        }
    }
}

/// The page brought on screen when page `page_idx` of `page_count` is asked for.
pub open spec fn target_page(page_idx: usize, page_count: usize) -> Result<usize, LayoutError> {
    if page_idx < page_count {
        Ok(page_idx)
    } else if page_idx == page_count {
        Err(LayoutError::PageOutOfRange)
    } else if page_count == 0 {
        Err(LayoutError::NoPages)
    } else {
        Ok((page_count - 1) as usize)
    }
}

/// Page `i` is the first of the pages whose distance is smallest.
pub open spec fn is_first_closest(distances: Seq<u32>, i: int) -> bool {
    &&& 0 <= i < distances.len()
    &&& forall|j: int| 0 <= j < distances.len() ==> distances[i] <= #[trigger] distances[j]
    &&& forall|j: int| 0 <= j < i ==> distances[i] < #[trigger] distances[j]
}

impl PageLayout {
    /// The index of the page closest to the centre of the viewport.
    ///
    /// `distances[i]` is the squared distance of page `i`'s centre from the viewport's
    /// centre, given as a key that orders as the distance does. Among pages at the
    /// same smallest distance the first one wins. With no pages there is no current
    /// page.
    pub fn current_page_index(&self, distances: &[u32]) -> (res: Result<usize, LayoutError>)
        ensures
            distances@.len() == 0 <==> res is Err,
            res matches Err(e) ==> e == LayoutError::NoPages,
            res matches Ok(i) ==> is_first_closest(distances@, i as int),
    {
        if distances.len() == 0 {
            return Err(LayoutError::NoPages);
        }
        let mut closest: usize = 0;
        let mut i: usize = 0;
        while i < distances.len()
            invariant
                0 <= closest <= i <= distances@.len(),
                closest < distances@.len(),
                forall|j: int| 0 <= j < i ==> distances@[closest as int] <= #[trigger] distances@[j],
                forall|j: int| 0 <= j < closest ==> distances@[closest as int] < #[trigger] distances@[j],
            decreases distances@.len() - i,
        {
            if distances[i] < distances[closest] {
                closest = i;
            }
            i = i + 1;
        }
        Ok(closest)
    }

    /// The page to bring on screen when page `page_idx` is asked for: that page, or
    /// the last page when `page_idx` is greater than the number of pages. Asking for
    /// the index equal to the number of pages is out of bounds, and a document
    /// without pages has no page to show.
    pub fn target_page_index(&self, page_idx: usize, page_count: usize) -> (res: Result<
        usize,
        LayoutError,
    >)
        ensures
            res == target_page(page_idx, page_count),
    {
        if page_idx < page_count {
            Ok(page_idx)
        } else if page_idx == page_count {
            Err(LayoutError::PageOutOfRange)
        } else if page_count == 0 {
            Err(LayoutError::NoPages)
        } else {
            Ok(page_count - 1)
        }
    }
}

/// Paging down and then up again comes back to the page one started from, as long
/// as paging down did not stop at the end of the document.
pub proof fn lemma_page_down_then_up(layout: PageLayout, current: int, page_count: int)
    requires
        0 <= current < page_count,
        current + layout.step_down(current) < page_count,
    ensures
        layout.above_target(layout.below_target(current, page_count), page_count) == current,
{
}

/// Paging up never moves forward and paging down never moves back; either stays put
/// exactly at the first or the last page, and both land on a page of the document.
pub proof fn lemma_paging_direction(layout: PageLayout, current: int, page_count: int)
    requires
        0 <= current < page_count,
    ensures
        0 <= layout.above_target(current, page_count) <= current,
        current <= layout.below_target(current, page_count) < page_count,
        layout.above_target(current, page_count) == current <==> current == 0,
        layout.below_target(current, page_count) == current <==> current == page_count - 1,
{
}

/// No row holds more than two pages: of two neighbouring pages at least one closes
/// its row.
pub proof fn lemma_rows_hold_at_most_two_pages(layout: PageLayout, page: int)
    requires
        0 <= page,
    ensures
        layout.closes_row(page) || layout.closes_row(page + 1),
{
}

/// In the title-page layout the first page has a row of its own.
pub proof fn lemma_title_page_alone()
    ensures
        PageLayout::TwoPageTitlePage.closes_row(0),
        PageLayout::TwoPageTitlePage.opens_row(1),
{
}

/// Paging down from the first page of a row shows the first page of a later row.
pub proof fn lemma_page_down_keeps_rows(layout: PageLayout, current: int, page_count: int)
    requires
        0 <= current < page_count,
        layout.opens_row(current),
        current + layout.step_down(current) < page_count,
    ensures
        layout.opens_row(layout.below_target(current, page_count)),
{
}

/// Page up moves back one page in the single-page and presentation layouts and two
/// pages in both two-page layouts, from every page, stopping at the first page.
pub proof fn lemma_page_up_distance(layout: PageLayout, current: int, page_count: int)
    requires
        0 <= current < page_count,
    ensures
        layout == PageLayout::SinglePage || layout == PageLayout::Presentation ==> layout.above_target(current, page_count) == (if current >= 1 { current - 1 } else { 0 }),
        layout == PageLayout::TwoPage || layout == PageLayout::TwoPageTitlePage ==> layout.above_target(current, page_count) == (if current >= 2 { current - 2 } else { 0 }),
{
}

/// Page down moves forward one page in the single-page and presentation layouts, two
/// pages in the two-page layout, and in the title-page layout one page from the title
/// page and two from any other, stopping at the last page.
pub proof fn lemma_page_down_distance(layout: PageLayout, current: int, page_count: int)
    requires
        0 <= current < page_count,
    ensures
        layout == PageLayout::SinglePage || layout == PageLayout::Presentation ==> layout.below_target(current, page_count) == (if current + 1 < page_count { current + 1 } else { page_count - 1 }),
        layout == PageLayout::TwoPage ==> layout.below_target(current, page_count) == (if current + 2 < page_count { current + 2 } else { page_count - 1 }),
        layout == PageLayout::TwoPageTitlePage && current == 0 ==> layout.below_target(current, page_count) == (if 1 < page_count { 1int } else { 0int }),
        layout == PageLayout::TwoPageTitlePage && current > 0 ==> layout.below_target(current, page_count) == (if current + 2 < page_count { current + 2 } else { page_count - 1 }),
{
}

/// Which pages end a row: every page in the single-page and presentation layouts;
/// exactly the odd pages in the two-page layout; the title page and then exactly the
/// even pages in the title-page layout.
pub proof fn lemma_row_ends(layout: PageLayout, page: int)
    requires
        0 <= page,
    ensures
        layout == PageLayout::SinglePage || layout == PageLayout::Presentation ==> layout.closes_row(page),
        layout == PageLayout::TwoPage ==> (layout.closes_row(page) <==> page % 2 == 1),
        layout == PageLayout::TwoPageTitlePage ==> (layout.closes_row(page) <==> (page == 0 || page % 2 == 0)),
{
}

/// In both two-page layouts rows alternate after the first page: of two neighbouring
/// pages exactly one ends its row, and the pattern repeats every two pages.
pub proof fn lemma_two_page_rows_alternate(layout: PageLayout, page: int)
    requires
        layout == PageLayout::TwoPage || layout == PageLayout::TwoPageTitlePage,
        1 <= page,
    ensures
        layout.closes_row(page) != layout.closes_row(page + 1),
        layout.closes_row(page + 2) == layout.closes_row(page),
{
}

/// Whenever the first page is among the closest, it is the current page; and there
/// is only ever one current page.
pub proof fn lemma_first_of_equals_wins(distances: Seq<u32>, i: int, j: int)
    ensures
        distances.len() > 0 && (forall|k: int| 0 <= k < distances.len() ==> distances[0] <= #[trigger] distances[k]) ==> is_first_closest(distances, 0),
        is_first_closest(distances, i) && is_first_closest(distances, j) ==> i == j,
        is_first_closest(distances, i) ==> forall|k: int| 0 <= k < distances.len() && distances[k] == distances[i] ==> i <= k,
{
    if is_first_closest(distances, i) && is_first_closest(distances, j) {
        assert(distances[i] <= distances[j]);
        assert(distances[j] <= distances[i]);
    }
}

/// Asking for a page that exists gives that page; asking past the end of a document
/// with pages gives its last page; the index equal to the page count is refused.
pub proof fn lemma_target_page(page_idx: usize, page_count: usize)
    ensures
        page_idx < page_count ==> target_page(page_idx, page_count) == Ok::<usize, LayoutError>(page_idx),
        page_idx == page_count ==> target_page(page_idx, page_count) is Err,
        page_idx > page_count > 0 ==> target_page(page_idx, page_count) == Ok::<usize, LayoutError>((page_count - 1) as usize),
        target_page(page_idx, page_count) matches Ok(i) ==> i < page_count,
{
}

} // verus!
