//! Client-side support library for a game-status HTTP API: the platform and
//! language selectors with their fixed short codes, the data records the API
//! serves, and a time-bounded response cache coordinating lookups with fetches.

mod table;

pub mod model;
pub mod cache;
pub mod request;

pub use cache::{CacheEntry, CacheKey, FetchError, WarframeCache};
pub use model::{Language, PlatformType, Translations};
