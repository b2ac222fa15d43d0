//! Execution contexts of a contract virtual machine: which assets a transaction
//! moved and from whom, how nested calls commit or abort what they did, which
//! names are visible to an expression, and which functions are being run.
//!
//! The database that holds the contracts, the parser and the evaluator live
//! outside this crate. Where a context needs one of them it takes a function
//! that does the work, and it tells its caller how to close the database's save
//! points.

pub mod asset_laws;
pub mod asset_map;
pub mod call_stack;
pub mod contract_context;
pub mod environment;
pub mod errors;
pub mod global_context;
pub mod keyed_map;
pub mod local_context;
pub mod owned_environment;
pub mod text;
pub mod transfer_table;
pub mod types;
