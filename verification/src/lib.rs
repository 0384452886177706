//! Request authentication for the catechesis registry API.
//!
//! Two trust models are served side by side. A *session* is issued by this
//! server after a password check and travels in a cookie as a token signed
//! with the process secret. A *bearer* token is signed by an external
//! identity provider whose public keys are discovered on demand, cached per
//! issuer, and used to admit administrators only.
//!
//! Beside authentication the crate holds the plain records of the registry,
//! the planning of bulk imports from a sheet, and the answers to writes
//! that find nothing to change. Reading requests, querying the database and
//! fetching key sets are left to the program around it.

pub mod bearer;
pub mod cookie;
pub mod error;
pub mod import;
pub mod json;
pub mod jwks;
pub mod models;
pub mod password;
pub mod principal;
pub mod replies;
pub mod request;
pub mod session;
pub mod text;
pub mod token;
