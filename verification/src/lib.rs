//! A keyword redirector engine: a short command plus optional arguments is
//! parsed, resolved against a registry of named URL-transformation strategies,
//! and turned into a destination URL with correct percent-encoding.
pub mod encode;
pub mod help;
pub mod hop;
pub mod parse;
pub mod registry;
pub mod strutil;

pub use encode::encode;
pub use hop::HopType;
pub use parse::validate;
pub use help::render_help_page;
pub use registry::{lookup, registry, resolve, ShortcutEntry};
