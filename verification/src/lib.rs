//! A newsletter subscription service.
//!
//! Visitors subscribe with an email address and receive a secret token that
//! proves ownership of the subscription; an administrator holding a shared
//! secret may enumerate all subscribers. Outcomes are presented through a
//! uniform API result envelope carrying an HTTP status code.
//!
//! `models` holds the record types, `db` the subscriber store and the
//! actions on it, `newsletter` the service owning the subscription and
//! authorization rules, `api` the result envelope, and `routes` the
//! endpoint handlers that tie service outcomes to status codes.

pub mod api;
pub mod db;
pub mod models;
pub mod newsletter;
pub mod routes;
