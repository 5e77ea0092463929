//! Context-scoped event logging with a single-slot last-error register.
//!
//! The library lets code emit leveled log events (info/warning/error) tagged
//! with a call-site descriptor, and separately exposes the text of the most
//! recently emitted error as queryable state on a shared [`Context`].

mod context;
mod event;
mod logext;
mod render;

pub use context::Context;
pub use context::ContextV;
pub use context::error_step;
pub use context::info_step;
pub use context::last_error_event_text;
pub use context::lemma_error_step_consistent;
pub use context::lemma_fresh_register_consistent;
pub use context::lemma_last_write_wins;
pub use context::lemma_nonerror_step_consistent;
pub use context::lemma_register_survives_warn_info;
pub use context::register_consistent;
pub use context::warn_step;
pub use event::EventType;
pub use event::EventV;
pub use logext::ErrorDisplay;
pub use logext::LogExt;
pub use logext::TextError;
pub use logext::ext_warn_step;
pub use logext::prefix_view;
pub use logext::warn_body;
pub use render::dec_digits;
pub use render::located_message;
pub use render::render_located;
pub use render::u64_to_string;
