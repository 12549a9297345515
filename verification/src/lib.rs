//! A verified style-resolution and layout engine for web pages.
//!
//! The crate models a DOM arena, parses selector text, matches selectors
//! and resolves computed styles per node through cascade and specificity,
//! builds a box tree, computes block and flex geometry, and emits display
//! list paint commands. All lengths are whole logical pixels (`i64`);
//! fractions that CSS sources carry (line-height factors, grow factors,
//! opacity) are held in hundredths.

pub mod attrstyle;
pub mod boxtree;
pub mod browse;
pub mod cascade;
pub mod computed;
pub mod dom;
pub mod history;
pub mod input;
pub mod layout;
pub mod selector;
pub mod painter;
pub mod stylesheet;
pub mod px;
pub mod scroll;
pub mod text;
