//! The module-host seam and its write-path substrate, as verified logic.
//!
//! A Module reaches the application schema through a closed vocabulary: a
//! per-operation selection of generated writes, write hooks that see a
//! mutation's whole write set, restricted mutations whose persistence the
//! library owns, and post-commit signals. The decisions behind each of these
//! live here with their contracts; the framework glue that performs them
//! against a live schema builder and database lives outside this crate.

pub mod compose;
pub mod custom_fields;
pub mod custom_ops;
pub mod dispatch;
pub mod events;
pub mod exports;
pub mod hooks;
pub mod module_ctx;
pub mod naming;
pub mod output;
pub mod pipeline;
pub mod prefix_check;
pub mod restricted;
pub mod signals;
mod text;
pub mod writes;
