//! Renders a statically declared configuration schema (fields, nested
//! sections, defaults, documentation, environment-variable bindings) as a
//! fully commented, human-editable TOML template.
//!
//! The schema is described by [`meta::Meta`] descriptors.  [`toml::format`]
//! walks the schema depth-first and drives a [`toml::TomlFormatter`], whose
//! event methods append correctly indented, correctly commented TOML text to
//! an output buffer.  Every default value is rendered through the verified
//! expression printer in [`literal`].

pub mod format;
pub mod literal;
pub mod meta;
pub mod render;
pub mod strbuf;
pub mod text;
pub mod toml;
