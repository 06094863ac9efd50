//! Module resolution for a JavaScript bundler: relative, absolute, aliased
//! and package (`node_modules`) specifiers, with the `package.json` fields
//! `browser`, `imports`, `exports`, `sideEffects` and the main fields, plus
//! the options of the module federation plugin.
pub mod strings;
pub mod paths;
pub mod json;
pub mod model;
pub mod resolver;
pub mod facts;
pub mod resolution;
pub mod federation;
pub mod stability;
pub mod laws;
