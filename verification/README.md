# pix_engine

The verified core of a 2D graphics and immediate-mode GUI engine, written in Verus.

`src/` holds the library, each function proved against its `requires` / `ensures`:

- `pixel`, `color`, `image`: pixels, colors, and images as byte buffers (pixel reads and
  writes, conversions, and PNG decoding and encoding through the `png` crate).
- `vector`, `shape`, `elementwise`, `approx`, `ops`, `lighting`: points, vectors and
  rectangles over any coordinate type, and size clamping.
- `event`, `input`: keys, modifiers, mouse buttons, and the translation of window-system
  input into engine events.
- `gui`: the UI state machine (hover, focus, active and edit state, per-element state kept in
  an `lru` cache), themes, layout, and the decisions of buttons, check boxes, radio buttons,
  sliders, scroll bars, select lists and boxes, text fields and areas, collapsing headers
  and trees, tab bars, menus, links, tooltips and help markers, drag boxes and value sliders
  over integers.
- `random`: random integers in a range, through the `rand` crate.
- `engine`: the engine state widgets read and update.
- `laws`: properties that relate operations to one another.

`app/` is a small program around the library: the window and its event loop (`winit`), file
I/O, the browser, the floating-point math the library leaves out, and the text widgets that
apply a character filter of the application's own through the library's `keep_chars`.
