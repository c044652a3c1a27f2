pub mod create;
pub mod mint;
