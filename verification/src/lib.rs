//! Display-list surfaces and platform text-input bridges, with their
//! state machines and registries stated and proved in Verus.

pub mod allocator;
pub mod cpp_api;
pub mod external_text_input;
pub mod graphics;
pub mod input;
pub mod native_surface;
pub mod overlay_text_input;
pub mod render_surface;
pub mod render_surface_item;
pub mod shared;
pub mod styled_text;
pub mod text_input;
