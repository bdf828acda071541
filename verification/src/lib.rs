//! Core of a CAS single-sign-on facade: the login handshake against a
//! university CAS service, the bridge that makes a downstream portal trust
//! the authenticated session, and the fetchers that map the portal's JSON
//! responses into typed records.
//!
//! All HTTP transport lives outside this crate; the modules here hold the
//! decisions of the handshake (token extraction, form building, verdict
//! checking), the JSON field mapping, and the serialization of the records.

pub mod errors;
pub mod chars;
pub mod cas;
pub mod form;
pub mod html;
pub mod json;
pub mod records;
pub mod fetch;
pub mod emit;
pub mod parse;
pub mod routes;
