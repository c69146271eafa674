//! A moderated bulletin board: posts carry nested comments and sub-comments,
//! every entity has a lifecycle status, and only its creator may move it
//! along that lifecycle.
//!
//! Every executable function is verified against a mathematical model of the
//! board, and the `ensures` clause of each operation says which model value
//! it returns and stores.
//!
//! - [`status`]: the lifecycle, the transition table and the access rule.
//! - [`model`]: what posts, comments and sub-comments are, and what each
//!   operation makes of a stored post.
//! - [`post`]: the stored values.
//! - [`editor`]: the operations on one stored post.
//! - [`visibility`]: what a reader sees of a stored post.
//! - [`board`]: the board itself, with its tag index and its queries.
//! - [`lifecycle`] and [`laws`]: what holds of every call and of every
//!   sequence of calls.
//! - [`text`]: comparing and searching text.

pub mod board;
pub mod editor;
pub mod laws;
pub mod lifecycle;
pub mod model;
pub mod post;
pub mod status;
pub mod text;
pub mod visibility;

pub use board::{BulletinBoard, Query};
pub use post::{Comment, Post, SubComment};
pub use status::{Status, WithStatus};
