pub mod account;
pub mod entry;
