use snowflake::{get_time_millis, millis_in_i64, pack_id, SnowflakeIdBucket, SnowflakeIdGenerator, BATCH_SIZE};
use std::collections::HashSet;
use std::time::{Duration, SystemTime, UNIX_EPOCH};

fn time_of(id: i64) -> i64 {
    id >> 22
}

fn machine_of(id: i64) -> i64 {
    (id >> 17) & 31
}

fn node_of(id: i64) -> i64 {
    (id >> 12) & 31
}

fn idx_of(id: i64) -> i64 {
    id & 4095
}

#[test]
fn pack_places_each_field() {
    assert_eq!(pack_id(1, 1, 1, 1), (1 << 22) + (1 << 17) + (1 << 12) + 1);
    assert_eq!(pack_id(0, 0, 0, 0), 0);
    assert_eq!(pack_id(5, 31, 31, 4095), (5 << 22) + (31 << 17) + (31 << 12) + 4095);
    assert_eq!(pack_id(1_700_000_000_000, 3, 7, 42), 7_130_316_800_000_000_000 + (3 << 17) + (7 << 12) + 42);
}

#[test]
fn pack_round_trips_fields() {
    let id = pack_id(123_456_789, 17, 9, 300);
    assert_eq!(time_of(id), 123_456_789);
    assert_eq!(machine_of(id), 17);
    assert_eq!(node_of(id), 9);
    assert_eq!(idx_of(id), 300);
}

#[test]
fn pack_truncates_wide_identities() {
    // A machine identity past five bits spills into the timestamp field.
    let id = pack_id(0, 33, 2, 0);
    assert_eq!(machine_of(id), 1);
    assert_eq!(time_of(id), 1);
    assert_eq!(node_of(id), 2);
    // A node identity past five bits spills into the machine field.
    let id = pack_id(0, 0, 33, 0);
    assert_eq!(node_of(id), 1);
    assert_eq!(machine_of(id), 1);
}

#[test]
fn generate_ten_ids_scenario() {
    let mut g = SnowflakeIdGenerator::new(1, 1).unwrap();
    let mut ids = Vec::new();
    for _ in 0..10 {
        ids.push(g.generate().unwrap());
    }
    for w in ids.windows(2) {
        assert!(w[0] < w[1]);
    }
    let set: HashSet<i64> = ids.iter().copied().collect();
    assert_eq!(set.len(), 10);
    for (k, id) in ids.iter().enumerate() {
        assert!(*id > 0);
        assert_eq!(machine_of(*id), 1);
        assert_eq!(node_of(*id), 1);
        assert_eq!(idx_of(*id), k as i64 + 1);
    }
}

#[test]
fn lazy_ten_thousand_distinct() {
    let mut g = SnowflakeIdGenerator::new(1, 1).unwrap();
    let set: HashSet<i64> = (0..10_000).map(|_| g.lazy_generate()).collect();
    assert_eq!(set.len(), 10_000);
}

#[test]
fn lazy_strictly_increasing() {
    let mut g = SnowflakeIdGenerator::new(4, 5).unwrap();
    let mut prev = g.lazy_generate();
    for _ in 0..20_000 {
        let id = g.lazy_generate();
        assert!(id > prev);
        prev = id;
    }
}

#[test]
fn lazy_wraps_after_full_span() {
    let mut g = SnowflakeIdGenerator::new(1, 1).unwrap();
    let first = g.lazy_generate();
    assert_eq!(idx_of(first), 1);
    let start = time_of(first);
    let mut last = first;
    for _ in 1..4095 {
        last = g.lazy_generate();
    }
    assert_eq!(idx_of(last), 4095);
    assert_eq!(time_of(last), start);
    let wrapped = g.lazy_generate();
    assert_eq!(idx_of(wrapped), 0);
    assert_eq!(time_of(wrapped), start + 1);
}

#[test]
fn real_time_strictly_increasing() {
    let mut g = SnowflakeIdGenerator::new(2, 7).unwrap();
    let mut prev = g.real_time_generate().unwrap();
    for _ in 0..50_000 {
        let id = g.real_time_generate().unwrap();
        assert!(id > prev);
        assert_eq!(machine_of(id), 2);
        assert_eq!(node_of(id), 7);
        prev = id;
    }
}

#[test]
fn generate_strictly_increasing_across_wraps() {
    let mut g = SnowflakeIdGenerator::new(6, 8).unwrap();
    let mut prev = g.generate().unwrap();
    for _ in 0..20_000 {
        let id = g.generate().unwrap();
        assert!(id > prev);
        prev = id;
    }
}

#[test]
fn mixed_strategies_distinct() {
    let mut g = SnowflakeIdGenerator::new(9, 10).unwrap();
    let mut set = HashSet::new();
    for k in 0..9_000 {
        let id = if k % 2 == 0 { g.generate().unwrap() } else { g.real_time_generate().unwrap() };
        assert!(set.insert(id));
    }
}

#[test]
fn bucket_refill_descending() {
    let mut b = SnowflakeIdBucket::new(1, 1).unwrap();
    let first = b.get_id();
    assert_eq!(idx_of(first), BATCH_SIZE as i64);
    let mut prev = first;
    for _ in 1..BATCH_SIZE {
        let id = b.get_id();
        assert!(id < prev);
        prev = id;
    }
    assert_eq!(idx_of(prev), 1);
    let refilled = b.get_id();
    assert!(refilled > first);
    assert_eq!(machine_of(refilled), 1);
    assert_eq!(node_of(refilled), 1);
    assert_eq!(BATCH_SIZE, 4091);
}

#[test]
fn bucket_with_epoch_uses_epoch() {
    let epoch = UNIX_EPOCH + Duration::from_millis(1_420_070_400_000);
    let mut b = SnowflakeIdBucket::with_epoch(1, 1, epoch).unwrap();
    let mut u = SnowflakeIdBucket::new(1, 1).unwrap();
    let diff = time_of(u.get_id()) - time_of(b.get_id());
    assert!((1_420_070_400_000..1_420_070_400_000 + 10_000).contains(&diff));
}

#[test]
fn with_epoch_in_future_is_refused() {
    let epoch = SystemTime::now() + Duration::from_secs(3600);
    assert!(SnowflakeIdGenerator::with_epoch(1, 1, epoch).is_none());
    assert!(SnowflakeIdBucket::with_epoch(1, 1, epoch).is_none());
    assert!(get_time_millis(epoch).is_none());
}

#[test]
fn time_millis_measures_from_epoch() {
    let epoch = SystemTime::now() - Duration::from_millis(5_000);
    let t = get_time_millis(epoch).unwrap();
    assert!((5_000..65_000).contains(&t));
    let since_unix = get_time_millis(UNIX_EPOCH).unwrap();
    assert!(since_unix > 1_600_000_000_000);
}

#[test]
fn generator_with_epoch_first_id() {
    let epoch = SystemTime::now() - Duration::from_millis(10_000);
    let mut g = SnowflakeIdGenerator::with_epoch(3, 4, epoch).unwrap();
    let id = g.generate().unwrap();
    assert!((10_000..70_000).contains(&time_of(id)));
    assert_eq!(idx_of(id), 1);
    assert_eq!(machine_of(id), 3);
    assert_eq!(node_of(id), 4);
    assert_eq!(g.machine_id, 3);
    assert_eq!(g.node_id, 4);
}

#[test]
fn millis_in_i64_bounds() {
    assert_eq!(millis_in_i64(5), Some(5));
    assert_eq!(millis_in_i64(0), Some(0));
    assert_eq!(millis_in_i64(i64::MAX as u128), Some(i64::MAX));
    assert_eq!(millis_in_i64(i64::MAX as u128 + 1), None);
}

#[test]
fn from_reading_stores_reading() {
    let g = SnowflakeIdGenerator::from_reading(1, 2, UNIX_EPOCH, 100);
    assert_eq!(g.current_id(), pack_id(100, 1, 2, 0));
    assert_eq!(g.machine_id, 1);
    assert_eq!(g.node_id, 2);
}

#[test]
fn real_time_step_same_and_new_millisecond() {
    let mut g = SnowflakeIdGenerator::from_reading(1, 1, UNIX_EPOCH, 100);
    assert!(!g.real_time_step(100));
    assert_eq!(g.current_id(), pack_id(100, 1, 1, 1));
    assert!(!g.real_time_step(100));
    assert_eq!(g.current_id(), pack_id(100, 1, 1, 2));
    assert!(!g.real_time_step(105));
    assert_eq!(g.current_id(), pack_id(105, 1, 1, 0));
    // A reading below the stored time is adopted as well.
    assert!(!g.real_time_step(103));
    assert_eq!(g.current_id(), pack_id(103, 1, 1, 0));
}

#[test]
fn real_time_step_used_up_millisecond_waits() {
    let mut g = SnowflakeIdGenerator::from_reading(1, 1, UNIX_EPOCH, 100);
    for _ in 0..4095 {
        assert!(!g.real_time_step(100));
    }
    assert_eq!(g.current_id(), pack_id(100, 1, 1, 4095));
    assert!(g.real_time_step(100));
    assert_eq!(g.current_id(), pack_id(100, 1, 1, 4095));
    assert!(!g.real_time_step(101));
    assert_eq!(g.current_id(), pack_id(101, 1, 1, 0));
}

#[test]
fn generate_step_at_wrap() {
    let mut g = SnowflakeIdGenerator::from_reading(2, 3, UNIX_EPOCH, 100);
    for _ in 0..4095 {
        assert!(!g.real_time_step(100));
    }
    assert!(g.generate_step(100));
    assert_eq!(g.current_id(), pack_id(100, 2, 3, 4095));
    assert!(!g.generate_step(102));
    assert_eq!(g.current_id(), pack_id(102, 2, 3, 0));
}

#[test]
fn generate_step_adopts_earlier_reading() {
    let mut g = SnowflakeIdGenerator::from_reading(2, 3, UNIX_EPOCH, 100);
    for _ in 0..4095 {
        g.lazy_generate();
    }
    assert!(!g.generate_step(90));
    assert_eq!(g.current_id(), pack_id(90, 2, 3, 0));
}
