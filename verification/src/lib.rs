pub mod auth;
pub mod errors;
pub mod models;
pub mod password;
pub mod routes;
pub mod shortcode;
pub mod store;
pub mod text;
pub mod token;
pub mod validate;
