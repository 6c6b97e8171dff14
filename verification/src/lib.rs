//! A CommonJS-to-ESM module rewriter.
//!
//! The crate models an ECMAScript module as an ordered sequence of top-level
//! items and rewrites the CommonJS idioms `module.exports = ...`,
//! `exports.<name> = ...` and `require("...")` into native `import` / `export`
//! declarations, leaving every other item untouched.

pub mod ast;
pub mod laws;
pub mod rewrite;
