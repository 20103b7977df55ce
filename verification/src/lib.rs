pub mod address;
pub mod codec;
pub mod errors;
pub mod handlers;
pub mod instruction;
pub mod keys;
pub mod models;
