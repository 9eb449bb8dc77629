//! Resolution of a broadcaster's published stream list into the one endpoint
//! that belongs to a region and a channel, and the policy that decides when
//! the locally kept copy of that list has to be fetched again.

pub mod cache;
pub mod error;
pub mod event;
pub mod freshness;
pub mod layout;
pub mod scan;
pub mod station;
pub mod text;

pub use cache::{next_action, CacheAction, CacheEvent};
pub use error::{CacheError, ResolutionError};
pub use event::XmlEvent;
pub use freshness::{is_stale, LocalTimestamp};
pub use scan::{get_station_url, resolve_events, ParseContext};
pub use station::{RadioChannel, RadioLocation};
