use vstd::prelude::*;

use crate::snowflake::Snowflake;

verus! {

/// A stateful generator that retains the last snowflake it produced and owns
/// a fixed worker id. One instance must be owned by exactly one caller at a
/// time; distinct generators with distinct worker ids are fully independent.
pub struct SnowflakeGenerator {
    last_snowflake: Snowflake,
}

impl SnowflakeGenerator {
    /// The snowflake that the generator retains: the last one produced, or
    /// the one it was constructed with.
    pub closed spec fn last(self) -> Snowflake {
        self.last_snowflake
    }

    /// The retained sequence counter never exceeds its 16-bit range.
    pub open spec fn wf(self) -> bool {
        self.last().wf()
    }

    /// Create a generator for the given worker id, seeded with the
    /// wall-clock time at construction and a zero sequence.
    pub fn new(worker_id: u64) -> (r: SnowflakeGenerator)
        ensures
            r.last().worker_id == worker_id,
            r.last().sequence == 0,
            r.wf(),
    {
        SnowflakeGenerator { last_snowflake: Snowflake::new(worker_id) }
    }

    /// Produce the next snowflake and retain it as the new state: the
    /// timestamp never regresses; within the same second the sequence
    /// increments; after exhaustion (`0xFFFF`) or a fresh second it resets
    /// to 0. May block briefly while the sequence space for the current
    /// second is exhausted.
    pub fn next(&mut self) -> (r: &Snowflake)
        requires
            old(self).wf(),
        ensures
            final(self).wf(),
            *r == final(self).last(),
            final(self).last().worker_id == old(self).last().worker_id,
            final(self).last().timestamp >= old(self).last().timestamp,
            final(self).last().timestamp > old(self).last().timestamp
                ==> final(self).last().sequence == 0,
            final(self).last().timestamp == old(self).last().timestamp
                ==> (final(self).last().sequence == old(self).last().sequence + 1
                || final(self).last().sequence == 0),
            old(self).last().sequence == 0xFFFF ==> final(self).last().sequence == 0,
    {
        self.last_snowflake = self.last_snowflake.next();
        &self.last_snowflake
    }

    /// Wait until the wall clock advances strictly past `last_timestamp`
    /// and return the new reading. Blocks by polling the clock; this stall
    /// is the deliberate backpressure for an exhausted sequence, not an
    /// error path.
    ///
    /// Relies on `std::time::SystemTime` (through `get_timestamp`) moving
    /// forward: the poll loop returns only once a reading is strictly past
    /// `last_timestamp`, and whether it ever does depends on the host
    /// clock, so the loop itself stands outside verification.
    #[verifier::external_body]
    pub fn wait_next_timestamp(last_timestamp: u64) -> (r: u64)
        ensures
            r > last_timestamp,
    {
        loop {
            let timestamp: u64 = SnowflakeGenerator::get_timestamp();
            if timestamp > last_timestamp {
                return timestamp;
            }
            std::hint::spin_loop();
        }
    }

    /// Current wall-clock time as whole seconds since the Unix epoch.
    ///
    /// Relies on `std::time::SystemTime::now`,
    /// `SystemTime::duration_since(UNIX_EPOCH)` and `Duration::as_secs`.
    /// Nothing is promised of the result: the clock may report any value,
    /// and two reads may disagree in either direction. A host clock set
    /// before the epoch is a fatal environment fault and aborts here.
    #[verifier::external_body]
    pub fn get_timestamp() -> u64 {
        std::time::SystemTime::now()
            .duration_since(std::time::UNIX_EPOCH)
            .expect("SystemTime before UNIX EPOCH!")
            .as_secs()
    }
}

} // verus!
