use vstd::prelude::*;
use vstd::string::StringExecFns;

use crate::generator::SnowflakeGenerator;

verus! {

/// A snowflake identifier, held as its three fields. Packed into a `u64`,
/// the timestamp occupies the high 41 bits (shifted left by 22), the worker
/// id the middle 10 bits (shifted left by 12) and the sequence the low 12
/// bits. The in-memory `sequence` counter may reach `0xFFFF` (16 bits)
/// before it wraps, so its top 4 bits do not survive packing; `parse` always
/// yields fields that fit their packed widths.
#[derive(Debug, PartialEq, Eq, Clone, PartialOrd, Ord, Structural)]
pub struct Snowflake {
    /// Seconds since the Unix epoch (1970-01-01 00:00:00 UTC) at creation.
    pub timestamp: u64,
    /// Identifies the host or thread producing identifiers; uniqueness
    /// across a fleet is the caller's responsibility. Expected in
    /// `[0, 1023]`, though not validated: larger values bleed into the
    /// timestamp field when packed.
    pub worker_id: u64,
    /// Counter disambiguating identifiers issued within the same second.
    /// Resets to 0 whenever the timestamp changes and wraps after `0xFFFF`.
    pub sequence: u64,
}

/// The packed form: `(timestamp << 22) | (worker_id << 12) | sequence`.
/// No validation: out-of-range fields overlap their neighbours' bits.
pub open spec fn spec_to_id(timestamp: u64, worker_id: u64, sequence: u64) -> u64 {
    (timestamp << 22) | (worker_id << 12) | sequence
}

/// The timestamp field of a packed identifier: bits 22..63.
pub open spec fn spec_timestamp_of(id: u64) -> u64 {
    (id >> 22) & 0x1FF_FFFF_FFFF
}

/// The worker-id field of a packed identifier: bits 12..22.
pub open spec fn spec_worker_of(id: u64) -> u64 {
    (id >> 12) & 0x3FF
}

/// The sequence field of a packed identifier: bits 0..12.
pub open spec fn spec_sequence_of(id: u64) -> u64 {
    id & 0xFFF
}

/// The state transition for one "produce next" call, given the retained
/// state `prev` and a wall-clock reading `now`:
/// - clock behind the retained timestamp: keep the retained timestamp (never
///   regress) and reset the sequence to 0 — the policy this library commits
///   to for a backward clock jump;
/// - same second, sequence not yet exhausted: increment the sequence;
/// - same second, sequence exhausted (`0xFFFF`): no successor exists until
///   the clock advances (`None` — the caller must wait);
/// - clock advanced: adopt the new timestamp and reset the sequence to 0.
pub open spec fn spec_advance(prev: Snowflake, now: u64) -> Option<Snowflake> {
    if now < prev.timestamp {
        Some(Snowflake { timestamp: prev.timestamp, worker_id: prev.worker_id, sequence: 0 })
    } else if now == prev.timestamp {
        if prev.sequence < 0xFFFF {
            Some(
                Snowflake {
                    timestamp: prev.timestamp,
                    worker_id: prev.worker_id,
                    sequence: (prev.sequence + 1) as u64,
                },
            )
        } else {
            None
        }
    } else {
        Some(Snowflake { timestamp: now, worker_id: prev.worker_id, sequence: 0 })
    }
}

impl Snowflake {
    /// The in-memory sequence counter stays within its 16-bit range.
    pub open spec fn wf(self) -> bool {
        self.sequence <= 0xFFFF
    }

    /// Create a snowflake for the given worker id, timestamped with the
    /// wall-clock time read at construction and a zero sequence.
    pub fn new(worker_id: u64) -> (r: Snowflake)
        ensures
            r.worker_id == worker_id,
            r.sequence == 0,
            r.wf(),
    {
        Snowflake { timestamp: SnowflakeGenerator::get_timestamp(), worker_id, sequence: 0 }
    }

    /// The pure step of the generation state machine: the successor of
    /// `self` under the clock reading `now`, or `None` when the sequence is
    /// exhausted for this second and the caller must wait for the clock.
    pub fn advance(&self, now: u64) -> (r: Option<Snowflake>)
        requires
            self.wf(),
        ensures
            r == spec_advance(*self, now),
    {
        if now < self.timestamp {
            Some(Snowflake { timestamp: self.timestamp, worker_id: self.worker_id, sequence: 0 })
        } else if now == self.timestamp {
            if self.sequence < 0xFFFF {
                Some(
                    Snowflake {
                        timestamp: self.timestamp,
                        worker_id: self.worker_id,
                        sequence: self.sequence + 1,
                    },
                )
            } else {
                None
            }
        } else {
            Some(Snowflake { timestamp: now, worker_id: self.worker_id, sequence: 0 })
        }
    }

    /// Produce the successor snowflake from the current wall clock: the
    /// timestamp never regresses; within the same second the sequence
    /// increments, and when it was exhausted (`0xFFFF`) the call blocks by
    /// polling until the clock moves strictly past the retained timestamp.
    /// A backward clock jump keeps the retained timestamp and resets the
    /// sequence to 0.
    pub fn next(&self) -> (r: Snowflake)
        requires
            self.wf(),
        ensures
            r.worker_id == self.worker_id,
            r.wf(),
            r.timestamp >= self.timestamp,
            r.timestamp > self.timestamp ==> r.sequence == 0,
            r.timestamp == self.timestamp ==> (r.sequence == self.sequence + 1 || r.sequence
                == 0),
            self.sequence == 0xFFFF ==> r.sequence == 0,
    {
        let now: u64 = SnowflakeGenerator::get_timestamp();
        match self.advance(now) {
            Some(n) => n,
            None => {
                let timestamp: u64 = SnowflakeGenerator::wait_next_timestamp(self.timestamp);
                Snowflake { timestamp, worker_id: self.worker_id, sequence: 0 }
            },
        }
    }

    /// The display form of a snowflake: the decimal string of its packed
    /// 64-bit identifier.
    pub fn to_string(&self) -> (r: String)
        ensures
            r@ == spec_decimal(spec_to_id(self.timestamp, self.worker_id, self.sequence) as int),
    {
        let id: u64 = self.to_id();
        u64_decimal(id)
    }

    /// Pack this snowflake into its 64-bit identifier. Total: fields beyond
    /// their packed widths are not rejected, their high bits simply land in
    /// the neighbouring field's bit positions.
    pub fn to_id(&self) -> (id: u64)
        ensures
            id == spec_to_id(self.timestamp, self.worker_id, self.sequence),
    {
        (self.timestamp << 22) | (self.worker_id << 12) | self.sequence
    }

    /// Unpack a 64-bit identifier into its three fields. Total: every input
    /// yields a snowflake whose fields fit their packed widths.
    pub fn parse(id: u64) -> (r: Snowflake)
        ensures
            r.timestamp == spec_timestamp_of(id),
            r.worker_id == spec_worker_of(id),
            r.sequence == spec_sequence_of(id),
            r.timestamp < 0x200_0000_0000,
            r.worker_id < 0x400,
            r.sequence < 0x1000,
            r.wf(),
    {
        let timestamp: u64 = (id >> 22) & 0x1FF_FFFF_FFFF;
        let worker_id: u64 = (id >> 12) & 0x3FF;
        let sequence: u64 = id & 0xFFF;

        proof {
            lemma_field_ranges(id);
        }

        Snowflake { timestamp, worker_id, sequence }
    }
}

/// The fields extracted from a packed identifier fit their packed widths.
proof fn lemma_field_ranges(id: u64)
    by (bit_vector)
    ensures
        spec_timestamp_of(id) < 0x200_0000_0000,
        spec_worker_of(id) < 0x400,
        spec_sequence_of(id) < 0x1000,
{
}

/// Round-trip law: packing a triple whose fields fit their widths
/// (`timestamp < 2^41`, `worker_id < 2^10`, `sequence < 2^12`) and
/// unpacking the result gives the triple back exactly.
pub proof fn lemma_encode_decode(timestamp: u64, worker_id: u64, sequence: u64)
    by (bit_vector)
    requires
        timestamp < 0x200_0000_0000,
        worker_id < 0x400,
        sequence < 0x1000,
    ensures
        spec_timestamp_of(spec_to_id(timestamp, worker_id, sequence)) == timestamp,
        spec_worker_of(spec_to_id(timestamp, worker_id, sequence)) == worker_id,
        spec_sequence_of(spec_to_id(timestamp, worker_id, sequence)) == sequence,
{
}

impl From<u64> for Snowflake {
    /// Unpack a 64-bit identifier, as a conversion: the same total
    /// extraction as `parse`.
    fn from(id: u64) -> (r: Snowflake) {
        Snowflake::parse(id)
    }
}

impl vstd::std_specs::convert::FromSpecImpl<u64> for Snowflake {
    open spec fn obeys_from_spec() -> bool {
        true
    }

    open spec fn from_spec(id: u64) -> Snowflake {
        Snowflake {
            timestamp: spec_timestamp_of(id),
            worker_id: spec_worker_of(id),
            sequence: spec_sequence_of(id),
        }
    }
}

/// The decimal digit character for `d` in `0..10`.
pub open spec fn spec_digit(d: int) -> char {
    if d == 0 {
        '0'
    } else if d == 1 {
        '1'
    } else if d == 2 {
        '2'
    } else if d == 3 {
        '3'
    } else if d == 4 {
        '4'
    } else if d == 5 {
        '5'
    } else if d == 6 {
        '6'
    } else if d == 7 {
        '7'
    } else if d == 8 {
        '8'
    } else {
        '9'
    }
}

/// The decimal form of a non-negative integer: most significant digit
/// first, no sign, no leading zeros (a single `'0'` for zero).
pub open spec fn spec_decimal(n: int) -> Seq<char>
    recommends
        n >= 0,
    decreases n,
{
    if n < 10 {
        seq![spec_digit(n)]
    } else {
        spec_decimal(n / 10).push(spec_digit(n % 10))
    }
}

/// The one-character string slice for the decimal digit `d`.
fn decimal_digit_str(d: u64) -> (r: &'static str)
    requires
        d < 10,
    ensures
        r@ == seq![spec_digit(d as int)],
{
    proof {
        reveal_strlit("0");
        reveal_strlit("1");
        reveal_strlit("2");
        reveal_strlit("3");
        reveal_strlit("4");
        reveal_strlit("5");
        reveal_strlit("6");
        reveal_strlit("7");
        reveal_strlit("8");
        reveal_strlit("9");
        assert("0"@ =~= seq!['0']);
        assert("1"@ =~= seq!['1']);
        assert("2"@ =~= seq!['2']);
        assert("3"@ =~= seq!['3']);
        assert("4"@ =~= seq!['4']);
        assert("5"@ =~= seq!['5']);
        assert("6"@ =~= seq!['6']);
        assert("7"@ =~= seq!['7']);
        assert("8"@ =~= seq!['8']);
        assert("9"@ =~= seq!['9']);
    }
    if d == 0 {
        "0"
    } else if d == 1 {
        "1"
    } else if d == 2 {
        "2"
    } else if d == 3 {
        "3"
    } else if d == 4 {
        "4"
    } else if d == 5 {
        "5"
    } else if d == 6 {
        "6"
    } else if d == 7 {
        "7"
    } else if d == 8 {
        "8"
    } else {
        "9"
    }
}

/// The decimal string of `n`, built digit by digit against `spec_decimal`.
fn u64_decimal(n: u64) -> (r: String)
    ensures
        r@ == spec_decimal(n as int),
    decreases n,
{
    let digit: &str = decimal_digit_str(n % 10);
    if n < 10 {
        let r: String = digit.to_owned();
        proof {
            assert(r@ =~= spec_decimal(n as int));
        }
        r
    } else {
        let mut s: String = u64_decimal(n / 10);
        s.append(digit);
        proof {
            assert(s@ =~= spec_decimal(n as int));
        }
        s
    }
}

/// The timestamp never regresses: whenever a step of the state machine
/// yields a successor, its timestamp is at least the previous one, whatever
/// the clock reported, and the worker id is carried over unchanged.
pub proof fn lemma_advance_no_regress(prev: Snowflake, now: u64)
    ensures
        spec_advance(prev, now) matches Some(n) ==> n.timestamp >= prev.timestamp && n.worker_id
            == prev.worker_id && n.wf(),
{
}

/// Monotonicity law: as long as the clock has not jumped backward, a step
/// of the state machine either advances the timestamp with a fresh zero
/// sequence, or keeps the timestamp and strictly increments the sequence;
/// only an exhausted sequence (`0xFFFF`) yields no successor.
pub proof fn lemma_advance_monotonic(prev: Snowflake, now: u64)
    requires
        prev.wf(),
        now >= prev.timestamp,
    ensures
        spec_advance(prev, now) matches Some(n) ==> n.timestamp >= prev.timestamp && (
        n.timestamp == prev.timestamp ==> n.sequence == prev.sequence + 1),
        spec_advance(prev, now) is None ==> prev.sequence == 0xFFFF && now == prev.timestamp,
{
}

/// Backward-clock guard law: when the clock reads earlier than the retained
/// timestamp, the step still yields a successor, its timestamp does not
/// regress below the retained value, and its sequence resets to 0.
pub proof fn lemma_advance_backward_clock(prev: Snowflake, now: u64)
    requires
        now < prev.timestamp,
    ensures
        spec_advance(prev, now) is Some,
        spec_advance(prev, now) matches Some(n) ==> n.timestamp == prev.timestamp && n.worker_id
            == prev.worker_id && n.sequence == 0,
{
}

/// Wraparound law: with the sequence exhausted (`0xFFFF`) and the clock
/// still in the same second, the state machine has no successor — the
/// producer must wait for the clock to advance before it can emit again.
pub proof fn lemma_advance_exhausted(prev: Snowflake)
    requires
        prev.sequence == 0xFFFF,
    ensures
        spec_advance(prev, prev.timestamp) is None,
{
}

/// Ordering law: for one worker, packed identifiers compare like their
/// (timestamp, sequence) pairs as long as every field fits its packed
/// width, so numeric comparison of identifiers reflects generation order.
pub proof fn lemma_id_ordering(t1: u64, w: u64, s1: u64, t2: u64, s2: u64)
    by (bit_vector)
    requires
        t1 < 0x200_0000_0000,
        t2 < 0x200_0000_0000,
        w < 0x400,
        s1 < 0x1000,
        s2 < 0x1000,
        t1 < t2 || (t1 == t2 && s1 < s2),
    ensures
        spec_to_id(t1, w, s1) < spec_to_id(t2, w, s2),
{
}

/// Round-trip law in the other direction: unpacking a 64-bit identifier and
/// packing the fields again reproduces the identifier exactly, except that
/// bit 63 (which no field covers) is cleared.
pub proof fn lemma_decode_encode(id: u64)
    by (bit_vector)
    ensures
        spec_to_id(spec_timestamp_of(id), spec_worker_of(id), spec_sequence_of(id))
            == id & 0x7FFF_FFFF_FFFF_FFFF,
        id < 0x8000_0000_0000_0000
            ==> spec_to_id(spec_timestamp_of(id), spec_worker_of(id), spec_sequence_of(id)) == id,
{
}

} // verus!
