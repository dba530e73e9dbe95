use rusty_snowflake::Snowflake;
use rusty_snowflake::SnowflakeGenerator;

#[test]
fn test_worker_id() {
    let ids: [u64; 6] = [42, 69, 420, 123, 777, 1000];

    for i in 0..ids.len() {
        let snowflake = Snowflake::new(ids[i]);
        assert_eq!(snowflake.worker_id, ids[i]);
    }
}

#[test]
fn test_sequence() {
    let mut snowflake = Snowflake::new(1);

    for i in 1..10u64 {
        snowflake = snowflake.next();
        let id: u64 = snowflake.to_id();
        assert_eq!(Snowflake::parse(id).sequence, i);
    }
}

#[test]
fn test_timestamp() {
    let snowflake = Snowflake::new(1);
    assert_eq!(snowflake.timestamp, SnowflakeGenerator::get_timestamp());
}

#[test]
fn test_snowflake_parse() {
    let snowflake = Snowflake::new(1);
    let id: u64 = snowflake.to_id();
    let parsed = Snowflake::parse(id);
    assert_eq!(snowflake, parsed, "Snowflake ID didn't parse correctly");
}

#[test]
fn test_next_timestamp_change() {
    let snowflake = Snowflake {
        worker_id: 1,
        timestamp: 100,
        sequence: 0,
    };

    let snowflake = snowflake.next();

    // The timestamp must catch up with the wall clock.
    assert_eq!(
        snowflake.timestamp,
        SnowflakeGenerator::get_timestamp(),
        "Timestamp didn't update correctly"
    );
}

#[test]
fn test_next_sequence_change() {
    let mut snowflake = Snowflake {
        worker_id: 1,
        timestamp: SnowflakeGenerator::get_timestamp(),
        sequence: 0,
    };

    snowflake = snowflake.next();

    // Within the same second the sequence increments.
    assert_eq!(snowflake.sequence, 1);

    snowflake = snowflake.next();

    assert_eq!(snowflake.sequence, 2);
}

#[test]
fn test_next_when_sequence_overflows() {
    let time: u64 = SnowflakeGenerator::get_timestamp();

    let snowflake = Snowflake {
        worker_id: 1,
        sequence: 0xFFFF, // Maximum sequence value
        timestamp: time,
    };

    let new_snowflake = snowflake.next();

    // The sequence resets to 0 ...
    assert_eq!(new_snowflake.sequence, 0);

    // ... and the call blocked until the clock moved strictly forward.
    assert!(new_snowflake.timestamp > time);
}

#[test]
fn test_next_when_timestamp_is_greater_than_timestamp() {
    let snowflake = Snowflake {
        worker_id: 1,
        timestamp: SnowflakeGenerator::get_timestamp() + 100,
        sequence: 0,
    };

    let snowflake = snowflake.next();

    // A backward clock jump resets the sequence to 0.
    assert_eq!(snowflake.sequence, 0);
}

#[test]
fn test_snowflake_to_id() {
    let snowflake = Snowflake::new(1);
    let id: u64 = snowflake.to_id();

    assert_eq!(
        snowflake,
        Snowflake::parse(id),
        "Snowflake ID didn't parse correctly"
    );
}

#[test]
fn test_snowflake_wait_next_timestamp() {
    let snowflake = Snowflake::new(1);
    let id: u64 = snowflake.timestamp;
    let next: u64 = SnowflakeGenerator::wait_next_timestamp(SnowflakeGenerator::get_timestamp());
    assert!(
        next > id,
        "Snowflake.wait_next_timestamp didn't return a new timestamp"
    );
}

#[test]
fn test_snowflake_to_string() {
    let snowflake = Snowflake::new(1);
    assert_eq!(snowflake.to_string(), format!("{}", snowflake.to_id()));
}

#[test]
fn test_from_u64() {
    let snowflake: Snowflake = Snowflake::from(1);
    let id: u64 = snowflake.to_id();
    let from_u64: Snowflake = id.into();

    assert_eq!(snowflake, from_u64);

    assert_eq!(Snowflake::from(1), Snowflake::parse(id));
}

#[test]
fn test_partial_ord() {}
