//! A blog runtime module: owners create blogs, write and edit posts in them,
//! lock and unlock blogs and posts, and anyone may reply to a post or to a
//! reply. Every dispatchable call either succeeds, changing the storage and
//! depositing exactly one event, or is refused with an error and leaves the
//! whole module as it was.

pub mod types;
pub mod module;
pub mod mock;
pub mod fixtures;
pub mod laws;
pub mod call_laws;
