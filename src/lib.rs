//! A minimal subscription service: a health check and a subscription form
//! endpoint. The request decisions (routing, form checks and field binding)
//! live here with their contracts; sockets and the HTTP server live in the
//! application around the library.

pub mod form;
pub mod routes;
pub mod startup;
pub mod text;
