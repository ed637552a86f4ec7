//! Authentication, session and authorization core of a web application.
//!
//! The modules, leaf first: `user` holds the identity records and the closed
//! role and permission enumerations; `errors` the failure taxonomy;
//! `hasher` one-way password hashing; `validation` input checks; `authz` the
//! role to permission catalog; `directory` an in-memory model of the user
//! store, over which the storage operations and the laws are stated and
//! tested; `session` the per-request session state machine; and `service`
//! the remote operations over that model, together with the decisions they
//! share with a server that keeps users elsewhere (`login_found`,
//! `authorize_password_change`).
pub mod user;
pub mod errors;
pub mod hasher;
pub mod validation;
pub mod authz;
pub mod directory;
pub mod session;
pub mod service;
