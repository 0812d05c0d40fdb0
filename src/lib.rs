//! Snowflake identifiers: a timestamp, a machine and node identity and a
//! sequence counter packed into one 64-bit integer.
//!
//! `SnowflakeIdGenerator` makes identifiers one at a time by one of three
//! strategies; `SnowflakeIdBucket` hands them out from a buffer that it
//! refills in batches.
pub mod bucket;
pub mod clock;
pub mod generator;
pub mod laws;
pub mod layout;

pub use bucket::{SnowflakeIdBucket, BATCH_SIZE};
pub use clock::{get_time_millis, millis_in_i64};
pub use generator::SnowflakeIdGenerator;
pub use layout::pack_id;
