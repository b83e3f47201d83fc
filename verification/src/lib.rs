//! The rules of a small HTTP service: a greeting page that shows the caller's
//! address, the ten bookings with the highest totals, and a health probe.
//!
//! The library decides and states; it does no I/O. A program around it
//! listens, asks the database and the IP-echo service, and sends what the
//! handlers return. For each request it asks [`route::route`] where the
//! request goes, does the outside work that the route needs, and hands the
//! outcome to the handler: [`health::health`], [`query::query`] or
//! [`hello::hello`], the last one behind [`headers::log_headers`].

pub mod config;
pub mod error;
pub mod fields;
pub mod headers;
pub mod health;
pub mod hello;
pub mod json;
pub mod query;
pub mod response;
pub mod route;
pub mod text;
