//! Request handling rules of a marketing-site backend: anti-spam heuristic,
//! field validation, rate limiting, the submission pipeline, pagination,
//! admin authorisation and the mapping of failures to client responses.
//!
//! Every rule is an executable function whose contract is stated over
//! mathematical models of its inputs and proved by Verus.

pub mod auth;
pub mod blog;
pub mod config;
pub mod decimal;
pub mod errors;
pub mod health;
pub mod models;
pub mod notify;
pub mod pagination;
pub mod pipeline;
pub mod ratelimit;
pub mod sitemap;
pub mod spam;
pub mod store;
pub mod text;
pub mod timefmt;
pub mod validation;
