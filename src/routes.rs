pub mod example;
pub mod other_auth_route;
pub mod todo;
