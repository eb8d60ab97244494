//! Abstract syntax tree for a small expression-oriented language.
//!
//! The tree is rooted at [`ast::Item`]s; every node is wrapped in a
//! [`span::Spanned`] that records where it was written. Well-formedness of
//! whole trees, and the proof that an item's span covers everything inside
//! it, live in [`wf`].

pub mod ast;
pub mod ident;
pub mod span;
pub mod text;
pub mod wf;
