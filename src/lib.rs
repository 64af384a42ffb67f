pub mod readin;
pub mod target;
pub mod error;
pub mod http;
pub mod auth;
pub mod challenge;
pub mod smb;
pub mod printer;
pub mod args;
