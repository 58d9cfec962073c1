pub mod chat;
pub mod handlers;
pub mod hashing;
pub mod laws;
pub mod movies;
pub mod response;
pub mod store;
pub mod text;
