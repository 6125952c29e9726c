use sysscore::error::ScoreError;
use sysscore::memory::{score_mem, MemoryReading};
use sysscore::score::Score;

#[test]
fn half_free_memory_is_fair() {
    let mem = MemoryReading::new(1000, 500).unwrap();
    assert_eq!(mem.total(), 1000);
    assert_eq!(mem.free(), 500);
    assert_eq!(mem.used(), 500);
    assert_eq!(mem.percent(), 50);
    assert_eq!(score_mem(&mem), Score::Fair);
}

#[test]
fn free_share_drops_the_remainder() {
    assert_eq!(MemoryReading::new(3, 1).unwrap().percent(), 33);
    assert_eq!(MemoryReading::new(3, 2).unwrap().percent(), 66);
    assert_eq!(MemoryReading::new(1000, 999).unwrap().percent(), 99);
    assert_eq!(MemoryReading::new(1001, 1000).unwrap().percent(), 99);
    assert_eq!(MemoryReading::new(7, 0).unwrap().percent(), 0);
    assert_eq!(MemoryReading::new(7, 7).unwrap().percent(), 100);
}

#[test]
fn memory_scores_at_the_bucket_edges() {
    assert_eq!(score_mem(&MemoryReading::new(10000, 999).unwrap()), Score::Awful);
    assert_eq!(score_mem(&MemoryReading::new(10000, 1000).unwrap()), Score::Bad);
    assert_eq!(score_mem(&MemoryReading::new(10000, 6699).unwrap()), Score::Fair);
    assert_eq!(score_mem(&MemoryReading::new(10000, 6700).unwrap()), Score::Good);
    assert_eq!(score_mem(&MemoryReading::new(10000, 8999).unwrap()), Score::Good);
    assert_eq!(score_mem(&MemoryReading::new(10000, 9000).unwrap()), Score::Perfect);
    assert_eq!(score_mem(&MemoryReading::new(10000, 10000).unwrap()), Score::Perfect);
}

#[test]
fn used_bytes_are_total_less_free() {
    assert_eq!(MemoryReading::new(16_000_000_000, 4_500_000_000).unwrap().used(), 11_500_000_000);
    assert_eq!(MemoryReading::new(1, 1).unwrap().used(), 0);
    assert_eq!(MemoryReading::new(u64::MAX, 0).unwrap().used(), u64::MAX);
}

#[test]
fn huge_readings_do_not_overflow() {
    let full = MemoryReading::new(u64::MAX, u64::MAX).unwrap();
    assert_eq!(full.percent(), 100);
    assert_eq!(score_mem(&full), Score::Perfect);
    let half = MemoryReading::new(u64::MAX, u64::MAX / 2).unwrap();
    assert_eq!(half.percent(), 49);
    assert_eq!(score_mem(&half), Score::Poor);
}

#[test]
fn a_total_of_zero_is_refused() {
    assert_eq!(MemoryReading::new(0, 0).err(), Some(ScoreError::ZeroTotal));
    assert_eq!(MemoryReading::new(0, 5).err(), Some(ScoreError::ZeroTotal));
}

#[test]
fn more_free_than_total_is_refused() {
    assert_eq!(MemoryReading::new(1000, 1001).err(), Some(ScoreError::OutOfRange));
    assert_eq!(MemoryReading::new(1, u64::MAX).err(), Some(ScoreError::OutOfRange));
}
