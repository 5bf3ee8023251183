//! Response and request model for an extended `call` RPC method: the outcome
//! of one call executed against one block, and the caller's execution hints.

pub mod alloy_types;
pub mod call_options;
pub mod call_result;

pub use call_options::CallXArgs;
pub use call_result::LogOrRevert;
