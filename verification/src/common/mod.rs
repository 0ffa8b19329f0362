pub mod errors;
pub mod utils;
pub mod types;
pub mod constants;
