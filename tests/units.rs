use quic_pacer::Bandwidth;
use quic_pacer::ReleaseTime;
use quic_pacer::StreamIdAllocator;

#[test]
fn bandwidth_constructors() {
    assert_eq!(Bandwidth::from_kbits_per_second(1_200).to_bits_per_second(), 1_200_000);
    assert_eq!(Bandwidth::zero().to_bits_per_second(), 0);
    assert_eq!(Bandwidth::from_bytes_and_time_delta(1200, 1_000_000).to_bits_per_second(), 9_600_000);
    assert_eq!(Bandwidth::from_bytes_and_time_delta(0, 1_000_000).to_bits_per_second(), 0);
    assert_eq!(Bandwidth::from_bytes_and_time_delta(1, 100_000_000_000).to_bits_per_second(), 1);
    assert_eq!(Bandwidth::from_bytes_and_time_delta(1, 0).to_bits_per_second(), 8_000_000);
}

#[test]
fn bandwidth_transfer_time() {
    let b = Bandwidth::from_bits_per_second(10_000_000);
    assert_eq!(b.transfer_time(1200), 960_000);
    assert_eq!(b.transfer_time(0), 0);
    assert_eq!(Bandwidth::zero().transfer_time(1200), 0);
    assert_eq!(Bandwidth::from_bits_per_second(1).transfer_time(usize::MAX), u64::MAX);
}

#[test]
fn bandwidth_bytes_per_period() {
    let b = Bandwidth::from_bits_per_second(6_250_000);
    assert_eq!(b.to_bytes_per_period(50_000_000), 39_062);
    assert_eq!(b.to_bytes_per_period(999), 0);
    assert_eq!(Bandwidth::from_bits_per_second(u64::MAX).to_bytes_per_period(u64::MAX), u64::MAX);
}

#[test]
fn bandwidth_scale_rounds() {
    let b = Bandwidth::from_bits_per_second(5_000_000);
    assert_eq!(b.scale(5, 4).to_bits_per_second(), 6_250_000);
    assert_eq!(Bandwidth::from_bits_per_second(5).scale(5, 4).to_bits_per_second(), 6);
    assert_eq!(Bandwidth::from_bits_per_second(3).scale(1, 2).to_bits_per_second(), 2);
    assert_eq!(Bandwidth::from_bits_per_second(u64::MAX).scale(5, 4).to_bits_per_second(), u64::MAX);
}

#[test]
fn bandwidth_min() {
    let a = Bandwidth::from_bits_per_second(3);
    let b = Bandwidth::from_bits_per_second(7);
    assert_eq!(a.min(b), a);
    assert_eq!(b.min(a), a);
}

#[test]
fn release_time_set_max_and_inc() {
    let mut t = ReleaseTime::Immediate;
    t.set_max(10);
    assert_eq!(t, ReleaseTime::At(10));
    t.set_max(5);
    assert_eq!(t, ReleaseTime::At(10));
    t.set_max(20);
    assert_eq!(t, ReleaseTime::At(20));
    t.inc(7);
    assert_eq!(t, ReleaseTime::At(27));
    t.inc(u64::MAX);
    assert_eq!(t, ReleaseTime::At(u64::MAX));
}

#[test]
fn stream_ids_step_by_four() {
    let mut a = StreamIdAllocator::default();
    assert_eq!(a.peek_next_id(), 0);
    assert_eq!(a.take_next_id(), 0);
    assert_eq!(a.peek_next_id(), 4);
    assert_eq!(a.take_next_id(), 4);
    assert_eq!(a.take_next_id(), 8);
    assert_eq!(a.peek_next_id(), 12);
}
