//! Typed client library for the Spotify Web API.
//!
//! The library turns the description of an operation of the API, an
//! [`api::Endpoint`], into requests, and the responses of the service into
//! typed values or classified errors. It is verified with Verus: the
//! contracts say, for every input, what each function returns.
//!
//! - [`api`] holds the endpoints, the parameters, the shared algorithm that
//!   builds requests and classifies responses, and the query strategies:
//!   ignore the result, return the raw bytes, decode a typed value, and walk
//!   the pages of a paged endpoint, eagerly or one request at a time.
//! - [`auth`] holds the two authorization flows, the authorization-code flow
//!   with PKCE and the client-credentials flow, and the requests for tokens.
//! - [`spotify`] holds the state of a client, its flow and its token, and
//!   what is decided about the token before each request.
//! - [`model`] holds the data that the service returns, and [`decode`] and
//!   [`json`] how it is read.
//! - [`urls`], [`time`] and [`text`] hold what the rest builds on.
//! - [`test`] holds clients that answer from memory.
//!
//! The library sends nothing itself. A client, which implements
//! [`api::Client`], does: it is handed each request and hands back the
//! response, or the failure of the transport.

pub mod api;
pub mod auth;
pub mod decode;
pub mod json;
pub mod model;
pub mod spotify;
pub mod test;
pub mod text;
pub mod time;
pub mod urls;
