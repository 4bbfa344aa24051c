# pdf_viewer

The verified core of a PDF viewer widget.

- `src/layout.rs`: page layouts, which pages share a row, which page is current,
  where "page up" and "page down" lead.
- `src/interaction.rs`: how mouse buttons and mouse motion drive the viewer.
- `src/keys.rs`: the short keys handed out for jumping to links.
- `src/pool.rs`: per-page stacks of pixel buffers kept for reuse.
- `src/shading.rs`: the dark-mode recolouring of rendered pixels and the
  background colour.

`app/` holds the widget itself: page geometry in floating point, rendering with
mupdf and drawing with iced, calling the library for every decision above.
