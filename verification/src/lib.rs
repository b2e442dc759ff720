//! A localized command-line reference for common Git commands.
//!
//! The library selects static help text by a `(topic, locale)` pair: either a
//! three-tier overview of commands or a detail block for one known command,
//! each available in a default (English) and an alternate (Japanese) variant.

pub mod locale;
pub mod render;
pub mod text;

pub use locale::Locale;
pub use locale::resolve_locale;
pub use render::HelpRequest;
pub use render::RenderOutput;
pub use render::parse_topic;
pub use render::render;
pub use render::render_overview;
pub use render::render_topic_detail;
pub use text::Topic;
