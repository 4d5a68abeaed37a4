//! Verified core of a small rewards catalog service.
//!
//! The crate holds what the service decides: how categories are written on
//! the wire and in the store, which statement each request sends to the
//! store, which reply each answer of the store becomes, and which rows the
//! seeding of an empty store leaves behind. Talking to the store, to the
//! disk and to HTTP clients is left to the program around it.

pub mod text;
pub mod category;
pub mod offer;
pub mod statement;
pub mod store;
pub mod seed;
pub mod seeded;
pub mod response;
pub mod handlers;
pub mod laws;

pub use category::Category;
pub use handlers::{
    listings, offers, offers_reply, popular, thumbnails, thumbnails_reply, Step, StoreFailure,
};
pub use offer::{default_catalog, Offer, Thumbnail};
pub use response::{Body, ContentType, Response, Status};
pub use seed::{asset_path, load_example_db, SeedStep};
pub use statement::{Param, Statement, POPULAR_LIMIT};
