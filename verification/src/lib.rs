//! A request-translation engine for a declarative HTTP client.
//!
//! A caller describes a request — method, URL, headers, a body in one of
//! several encodings, and per-request transport policies — and gets back a
//! normalized response (status, canonical status text, flattened headers,
//! text body).  This crate holds the verified core: turning a request
//! description into a validated transport plan, and turning raw response
//! parts into the normalized response.  The actual network send is left to
//! the embedding application, which executes the plan with an HTTP client
//! configured to match it.

pub mod model;
pub mod plan;
pub mod response;
pub mod tokens;
