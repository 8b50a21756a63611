pub mod channel;
pub mod collector;
pub mod errors;
pub mod messages;
pub mod primitives;
pub mod scenarios;
pub mod types;
pub mod utils;
