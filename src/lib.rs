pub mod account_map;
pub mod balances;
pub mod runtime;
pub mod system;
pub mod types;

pub use runtime::Runtime;
