//! Distributed-unique, roughly time-ordered 64-bit identifiers
//! ("snowflakes"), packed from a timestamp, a worker id and a per-second
//! sequence counter, together with a stateful generator that hands out
//! collision-free identifiers for a single worker.

mod generator;
mod snowflake;

pub use generator::SnowflakeGenerator;
pub use snowflake::Snowflake;
pub use snowflake::lemma_advance_backward_clock;
pub use snowflake::lemma_advance_exhausted;
pub use snowflake::lemma_advance_monotonic;
pub use snowflake::lemma_advance_no_regress;
pub use snowflake::lemma_decode_encode;
pub use snowflake::lemma_encode_decode;
pub use snowflake::lemma_id_ordering;
pub use snowflake::spec_advance;
pub use snowflake::spec_decimal;
pub use snowflake::spec_digit;
pub use snowflake::spec_sequence_of;
pub use snowflake::spec_timestamp_of;
pub use snowflake::spec_to_id;
pub use snowflake::spec_worker_of;
