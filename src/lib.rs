pub mod api;
pub mod bridge;
pub mod client;
pub mod console;
pub mod context;
pub mod pairing;
pub mod router;
pub mod text;
