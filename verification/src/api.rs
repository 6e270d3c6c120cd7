//! Spotify Web API endpoints and the strategies that execute them.
//!
//! Each operation of the API is a value that implements [`Endpoint`]. A query
//! strategy ([`ignore`], [`raw`], [`paged`], or the endpoint itself through
//! [`Query`]) turns it into one or more HTTP exchanges with a [`Client`].

pub mod albums;
pub mod audiobooks;
pub mod chapters;
pub mod client;
pub mod common;
pub mod endpoint;
pub mod episodes;
pub mod error;
pub mod ignore;
pub mod paged;
pub mod params;
pub mod player;
pub mod playlists;
pub mod query;
pub mod raw;
pub mod shows;
pub mod tracks;
pub mod users;

pub use client::{Client, Method, Request, Response, RestClient};
pub use endpoint::{Endpoint, Pageable, UrlBase};
pub use ignore::{ignore, Ignore};
pub use paged::{
    paged, paged_all, paged_with_limit, paged_with_limit_and_offset, LazilyPagedIter, PageCursor,
    Paged, Pagination, MAX_LIMIT,
};
pub use query::Query;
pub use raw::{raw, Raw};
pub use error::{ApiError, BodyError, DecodeError};
pub use params::{FormParams, JsonParams, ParamValue, QueryParams};
