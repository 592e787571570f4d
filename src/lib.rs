//! The expression-evaluation core of a columnar engine: typed value handles,
//! per-node argument binding, the per-batch evaluation context, evaluators and
//! the registry that maps operation names to their constructors, and the
//! keys under which storage backends are resolved.
pub mod array;
pub mod error;
pub mod handle;
pub mod static_info;
pub mod work_area;
pub mod evaluator;
pub mod registry;
pub mod pass;
pub mod laws;
pub mod store_key;
