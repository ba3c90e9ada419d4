pub mod errors;

pub use errors::JvmtiError;
pub use errors::JvmtiResult;
pub use errors::JvmtiStatusCode;
