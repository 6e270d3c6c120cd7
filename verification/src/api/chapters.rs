//! Audiobook chapter endpoints.

pub mod get_chapter;

pub use get_chapter::{GetChapter, GetChapterBuilder};
