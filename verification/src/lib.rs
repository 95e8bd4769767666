//! Verified core of a poll service: poll validation, error reporting and the
//! decision logic of its HTTP routes, stated over plain values.

pub mod domain;
pub mod validation;
pub mod errors;
pub mod helpers;
pub mod routes;
pub mod repositories;
pub mod laws;
pub mod startup;
