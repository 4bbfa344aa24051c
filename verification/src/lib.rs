//! The decision logic of a PDF viewer widget: how pages are grouped into rows and
//! navigated in each page layout, how mouse input drives the viewer, which hint keys
//! are handed out for link jumping, how rendered pixel buffers are pooled for reuse,
//! and how the dark-mode shader recolours pixels.
//!
//! Everything that measures pages in floating point, talks to the PDF engine or
//! draws on screen lives outside this crate; it hands plain values to these
//! functions and acts on what they return.

mod interaction;
mod keys;
mod layout;
mod pool;
mod shading;

pub use interaction::{
    lemma_buttons_send_their_commands, lemma_drag_survives_commands, lemma_pan_while_held, lemma_release_ends_interaction,
    page_jump_allowed, ButtonReaction, MouseAction, MouseInteraction, MoveReaction, ViewerCommand,
};
pub use keys::{
    generate_key_combinations, hint_key, hint_keys, key_alphabet, lemma_hint_keys_distinct,
    lemma_hint_key_count, lemma_hint_key_order, lemma_hint_keys_prefix, lemma_key_alphabet_letters,
    max_key_count,
};
pub use layout::{
    is_first_closest, lemma_first_of_equals_wins, lemma_page_down_distance, lemma_page_down_keeps_rows,
    lemma_page_up_distance, lemma_row_ends, lemma_target_page, lemma_two_page_rows_alternate, target_page, lemma_page_down_then_up, lemma_paging_direction,
    lemma_rows_hold_at_most_two_pages, lemma_title_page_alone, LayoutError, PageLayout,
};
pub use pool::{lemma_pages_independent, lemma_take_returns_last_given, stack_of, BufferPool};
pub use shading::{
    brightness, lemma_partial_pixel_kept, lemma_pixel_takes_mean_colour, cpu_pdf_dark_mode_shader, get_background_color, shaded_sample, Rgb8,
};
