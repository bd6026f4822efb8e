//! Trip planning service core: request validation, the decisions of each
//! endpoint, the e-mails it sends and the error replies it gives.
//! The HTTP server, the database and the mail transport drive these decisions
//! from outside.

pub mod error;
pub mod config;
pub mod datetime;
pub mod ids;
pub mod validation;
pub mod mail;
pub mod routes;
pub mod tasks;
