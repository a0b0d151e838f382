pub mod routes;
pub mod schema;
pub mod security;
pub mod store;
pub mod text;
pub mod utils;
