//! Feed monitor: finds the entries of a syndication feed that a stored
//! snapshot does not hold yet, prepares them for a notification mail and
//! decides when the snapshot may be replaced.

pub mod error;
pub mod item;
pub mod diff;
pub mod feed;
pub mod date;
pub mod transform;
pub mod config;
pub mod notify;
pub mod pipeline;
pub mod run;
