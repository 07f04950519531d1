//! Formatting of conventional-commit messages.
//!
//! A commit message is built from a closed set of commit-type tags, an
//! urgency marker for breaking changes, a subject line and an optional body.
//! The [`commit_type`] module holds the tag vocabulary and its canonical
//! lowercase keys; the [`message`] module composes the final message string.

pub mod commit_type;
pub mod message;

pub use commit_type::CommitType;
pub use message::CommitRequest;
pub use message::make_commit_message;
