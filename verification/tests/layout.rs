use pdf_viewer::{LayoutError, PageLayout};

const ALL: [PageLayout; 4] = [
    PageLayout::SinglePage,
    PageLayout::TwoPage,
    PageLayout::TwoPageTitlePage,
    PageLayout::Presentation,
];

#[test]
fn default_layout_is_single_page() {
    assert_eq!(PageLayout::default(), PageLayout::SinglePage);
}

#[test]
fn page_up_moves_one_row_back() {
    assert_eq!(PageLayout::SinglePage.index_above(5, 10), 4);
    assert_eq!(PageLayout::Presentation.index_above(5, 10), 4);
    assert_eq!(PageLayout::TwoPage.index_above(5, 10), 3);
    assert_eq!(PageLayout::TwoPageTitlePage.index_above(5, 10), 3);
}

#[test]
fn page_up_stops_at_first_page() {
    for layout in ALL {
        assert_eq!(layout.index_above(0, 10), 0);
    }
    assert_eq!(PageLayout::TwoPage.index_above(1, 10), 0);
    assert_eq!(PageLayout::TwoPageTitlePage.index_above(1, 10), 0);
}

#[test]
fn page_down_moves_one_row_forward() {
    assert_eq!(PageLayout::SinglePage.index_below(5, 10), 6);
    assert_eq!(PageLayout::Presentation.index_below(5, 10), 6);
    assert_eq!(PageLayout::TwoPage.index_below(5, 10), 7);
    assert_eq!(PageLayout::TwoPageTitlePage.index_below(5, 10), 7);
}

#[test]
fn page_down_from_title_page_goes_to_second_page() {
    assert_eq!(PageLayout::TwoPageTitlePage.index_below(0, 10), 1);
    assert_eq!(PageLayout::TwoPage.index_below(0, 10), 2);
}

#[test]
fn page_down_stops_at_last_page() {
    for layout in ALL {
        assert_eq!(layout.index_below(9, 10), 9);
        assert_eq!(layout.index_below(0, 1), 0);
    }
    assert_eq!(PageLayout::TwoPage.index_below(8, 10), 9);
}

#[test]
fn page_down_then_up_returns() {
    for layout in ALL {
        for current in 0..6usize {
            let below = layout.index_below(current, 10);
            assert_eq!(layout.index_above(below, 10), current);
        }
    }
}

#[test]
fn rows_in_each_layout() {
    for page in 0..6usize {
        assert!(PageLayout::SinglePage.ends_row(page));
        assert!(PageLayout::Presentation.ends_row(page));
    }
    let two: Vec<bool> = (0..6usize).map(|p| PageLayout::TwoPage.ends_row(p)).collect();
    assert_eq!(two, vec![false, true, false, true, false, true]);
    let title: Vec<bool> =
        (0..6usize).map(|p| PageLayout::TwoPageTitlePage.ends_row(p)).collect();
    assert_eq!(title, vec![true, false, true, false, true, false]);
}

#[test]
fn rows_never_hold_three_pages() {
    for layout in ALL {
        for page in 0..20usize {
            assert!(layout.ends_row(page) || layout.ends_row(page + 1));
        }
    }
}

#[test]
fn current_page_is_the_closest() {
    let layout = PageLayout::SinglePage;
    assert_eq!(layout.current_page_index(&[30, 20, 10, 40]), Ok(2));
    assert_eq!(layout.current_page_index(&[7]), Ok(0));
}

#[test]
fn current_page_prefers_first_of_equals() {
    let layout = PageLayout::TwoPage;
    assert_eq!(layout.current_page_index(&[30, 10, 10, 40]), Ok(1));
    assert_eq!(layout.current_page_index(&[5, 5, 5]), Ok(0));
}

#[test]
fn current_page_of_no_pages_is_an_error() {
    assert_eq!(PageLayout::SinglePage.current_page_index(&[]), Err(LayoutError::NoPages));
}

#[test]
fn current_page_from_float_distances() {
    let distances: Vec<f32> = vec![1200.5, 3.25, 40.0];
    let keys: Vec<u32> = distances.iter().map(|d| d.to_bits()).collect();
    assert_eq!(PageLayout::Presentation.current_page_index(&keys), Ok(1));
}

#[test]
fn target_page_in_range_is_kept() {
    assert_eq!(PageLayout::SinglePage.target_page_index(3, 10), Ok(3));
    assert_eq!(PageLayout::SinglePage.target_page_index(0, 10), Ok(0));
}

#[test]
fn target_page_past_the_end_is_the_last_page() {
    assert_eq!(PageLayout::TwoPage.target_page_index(11, 10), Ok(9));
    assert_eq!(PageLayout::TwoPage.target_page_index(500, 10), Ok(9));
}

#[test]
fn target_page_at_the_page_count_is_out_of_bounds() {
    assert_eq!(PageLayout::TwoPage.target_page_index(10, 10), Err(LayoutError::PageOutOfRange));
    assert_eq!(PageLayout::SinglePage.target_page_index(0, 0), Err(LayoutError::PageOutOfRange));
}

#[test]
fn target_page_of_empty_document_is_an_error() {
    assert_eq!(PageLayout::SinglePage.target_page_index(3, 0), Err(LayoutError::NoPages));
}
