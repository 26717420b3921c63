mod builder;
pub mod client;
