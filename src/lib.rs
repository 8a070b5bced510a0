pub mod api;
pub mod cert;
pub mod claims;
pub mod error;
pub mod extract;
pub mod permission;
pub mod scope;
pub mod state;
pub mod text;
pub mod user;

pub use error::Error;
