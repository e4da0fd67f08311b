//! A minimal HTTP redirect router: a pure, verified mapping from an HTTP
//! method and request path to a response descriptor. GET requests whose path
//! stands in a fixed route table are answered with a 301 redirect to the
//! route's destination; every other request is answered with 404.

pub mod logging;
pub mod router;
pub mod strutil;
