//! A minimal HTTP health/identity service: the routing rules and the two
//! constant handlers, stated and proved. The HTTP server itself sits outside
//! the library; [`routes::respond`] answers any request handed to it as plain
//! values.

pub mod routes;
