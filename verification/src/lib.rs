//! The blog of a multilingual static site: from the sources of the posts to
//! the bodies of their pages and the index that lists them.
//!
//! - `metadata` reads title and date from the header of a post, with the
//!   heading and the file name to fall back on.
//! - `fragment` takes out of the compiler's output what can stand inside a
//!   page.
//! - `sidecar` and `compiler` say when and how the compilers are called, and
//!   `pipeline` puts the steps in order. Nothing in this crate reads a file
//!   or starts a program: the caller does, and hands in what it found.
//! - `index` lists the posts, `lang` names their pages and links, `i18n` and
//!   `visual_identity` hold texts and files of the site.
//! - `text` and `decimal` are the ground the others stand on; the modules
//!   whose names end in `_lemmas` prove what the others promise beyond their
//!   contracts.

pub mod argument_lemmas;
pub mod compiler;
pub mod decimal;
pub mod fragment;
pub mod header_lemmas;
pub mod heading_lemmas;
pub mod i18n;
pub mod index;
pub mod index_lemmas;
pub mod lang;
pub mod metadata;
pub mod pipeline;
pub mod scan_lemmas;
pub mod sidecar;
pub mod svg_lemmas;
pub mod text;
pub mod text_lemmas;
pub mod visual_identity;
