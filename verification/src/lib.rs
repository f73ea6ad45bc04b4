//! The talk pages of a personal site: an index of all talks and one page
//! for each talk, served from records that were loaded beforehand, with a
//! hit count for each page that was served.

pub mod error;
pub mod handlers;
pub mod hits;
pub mod lookup;
pub mod post;

pub use error::Error;
pub use hits::HitCounter;
pub use post::{Html, Post, State};
pub use handlers::{index, post_view};
