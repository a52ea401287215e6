//! Data model types shared across the library: files and media lists,
//! users, forums, posts and comments.

pub mod comment;
pub mod file;
pub mod forum;
pub mod post;
pub mod user;
