//! Manuscript: the document model of a writing tool for book authors, with
//! chapters, character sheets, notes and project settings, plus the text
//! analysis that turns markdown-like markup into formatting rules and the
//! serializer that writes tagged text as markup.

pub mod models;
pub mod services;
pub mod util;
pub mod libs;
pub mod widgets;
