# slint_surface_core

Display-list surfaces and platform text-input bridges, verified with Verus.

- `src/native_surface.rs`, `src/render_surface.rs`: layer masks, frames of
  three independently replaceable layers, the frame registry (publish, delta,
  clear, lookup) and the text/rectangle adapters, with their laws.
- `src/external_text_input.rs`, `src/overlay_text_input.rs`,
  `src/render_surface_item.rs`: the items' event handling as state machines
  that say what the host has to do (`src/text_input.rs`, `src/input.rs`).
- `src/cpp_api.rs`: reading display lists and strings handed across the C
  boundary, grapheme counting and decimal parsing.
- `src/allocator.rs`: the address arithmetic of the C-heap allocator.
- `app/lib.rs`: the C ABI, thread-local registries and host callbacks.
