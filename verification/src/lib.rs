//! Rewrites of script source trees that inject calls into a runtime hook API.
//!
//! Three passes work on a tree.  The instrumentation pass puts calls of hooks
//! into the functions that a file's instructions name: calls that are shown
//! the arguments, that may replace them, and that may replace what the
//! function returns.  The taint pass wraps the string operations of arbitrary
//! code.  The third pass marks a file as loaded.  Each pass ends by loading
//! exactly the hooks that the rewritten file calls.
//!
//! The crate works on a small syntax model of its own (`syntax`).  An
//! embedding parses the source text, hands each node that its walk visits to
//! a pass as a model (`transformer`, `user_code`), writes what the model has
//! become back into its tree, and prints the tree.  What the embedding has to
//! do and when, and what comes of it, is laid down by a run (`pipeline`).
//!
//! What holds of the passes on every input is proved in `laws`.
pub mod calls;
pub mod dialect;
pub mod handles;
pub mod hooks;
pub mod imports;
pub mod insert_code;
pub mod instructions;
pub mod laws;
pub mod names;
pub mod nodes;
pub mod pipeline;
pub mod return_statements;
pub mod syntax;
pub mod text;
pub mod transformer;
pub mod user_code;
