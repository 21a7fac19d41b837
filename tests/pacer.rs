use quic_pacer::Bandwidth;
use quic_pacer::FixedCongestion;
use quic_pacer::Lost;
use quic_pacer::Pacer;
use quic_pacer::RecoveryStats;
use quic_pacer::ReleaseDecision;
use quic_pacer::ReleaseTime;
use quic_pacer::RttStats;
use quic_pacer::INITIAL_UNPACED_BURST;

const MSS: usize = 1200;
const T0: u64 = 1_000_000_000;
/// Time to move 1200 bytes at 10 Mbit/s, in nanoseconds.
const DELAY_10_MBPS: u64 = 960_000;

fn rtt() -> RttStats {
    RttStats { latest_rtt: 50_000_000, smoothed_rtt: 50_000_000, min_rtt: 50_000_000 }
}

fn sender(cwnd_packets: usize, bits_per_second: u64) -> FixedCongestion {
    FixedCongestion::new(cwnd_packets * MSS, MSS, Bandwidth::from_bits_per_second(bits_per_second))
}

fn pacer(cwnd_packets: usize, bits_per_second: u64) -> Pacer<FixedCongestion> {
    Pacer::new(true, sender(cwnd_packets, bits_per_second), None)
}

fn send(p: &mut Pacer<FixedCongestion>, at: u64, in_flight: usize, pn: u64) {
    p.on_packet_sent(at, in_flight, pn, MSS, true, &rtt());
}

fn lose_one(p: &mut Pacer<FixedCongestion>, rtt_updated: bool, rtt_stats: &RttStats) {
    let lost = [Lost { packet_number: 0, bytes_lost: MSS }];
    let mut stats = RecoveryStats { startup_exit_cwnd: None };
    p.on_congestion_event(rtt_updated, MSS, 0, T0, &[], &lost, 1, rtt_stats, &mut stats);
}

/// Sends the ten packets of the burst that follows quiescence.
fn drain_burst(p: &mut Pacer<FixedCongestion>) {
    for i in 0..10 {
        send(p, T0, i * MSS, i as u64);
    }
    assert_eq!(p.burst_tokens(), 0);
}

#[test]
fn quiescence_exit_burst() {
    let mut p = pacer(100, 10_000_000);
    for i in 0..10usize {
        send(&mut p, T0, i * MSS, i as u64);
        if i == 0 {
            assert_eq!(p.burst_tokens(), 9);
        }
        assert_eq!(
            p.get_next_release_time(),
            ReleaseDecision { time: ReleaseTime::Immediate, allow_burst: i < 9 }
        );
    }
    assert_eq!(p.burst_tokens(), 0);
}

#[test]
fn bursting_capped_by_cwnd() {
    let mut p = pacer(3, 10_000_000);
    send(&mut p, T0, 0, 0);
    assert_eq!(p.burst_tokens(), 2);
    send(&mut p, T0, MSS, 1);
    send(&mut p, T0, 2 * MSS, 2);
    assert_eq!(p.burst_tokens(), 0);
    assert_eq!(p.get_next_release_time().time, ReleaseTime::Immediate);
    send(&mut p, T0, 3 * MSS, 3);
    assert_eq!(p.lumpy_tokens(), 0);
    assert_eq!(
        p.get_next_release_time(),
        ReleaseDecision { time: ReleaseTime::At(T0 + DELAY_10_MBPS), allow_burst: false }
    );
    assert!(!p.is_pacing_limited());
}

#[test]
fn lumpy_at_high_bandwidth() {
    let mut p = pacer(100, 10_000_000);
    drain_burst(&mut p);
    send(&mut p, T0, 10 * MSS, 10);
    assert_eq!(p.lumpy_tokens(), 1);
    assert!(p.is_pacing_limited());
    assert_eq!(
        p.get_next_release_time(),
        ReleaseDecision { time: ReleaseTime::At(T0 + DELAY_10_MBPS), allow_burst: true }
    );
    send(&mut p, T0, 11 * MSS, 11);
    assert_eq!(p.lumpy_tokens(), 0);
    assert_eq!(
        p.get_next_release_time(),
        ReleaseDecision { time: ReleaseTime::At(T0 + 2 * DELAY_10_MBPS), allow_burst: false }
    );
    send(&mut p, T0, 12 * MSS, 12);
    assert_eq!(p.lumpy_tokens(), 1);
    assert_eq!(p.get_next_release_time().time, ReleaseTime::At(T0 + 3 * DELAY_10_MBPS));
}

#[test]
fn low_bandwidth_clamp() {
    let mut p = pacer(100, 500_000);
    drain_burst(&mut p);
    let delay: u64 = 19_200_000;
    send(&mut p, T0, 10 * MSS, 10);
    assert_eq!(p.lumpy_tokens(), 0);
    assert_eq!(
        p.get_next_release_time(),
        ReleaseDecision { time: ReleaseTime::At(T0 + delay), allow_burst: false }
    );
    send(&mut p, T0 + delay, 11 * MSS, 11);
    assert_eq!(p.lumpy_tokens(), 0);
    assert_eq!(p.get_next_release_time().time, ReleaseTime::At(T0 + 2 * delay));
}

#[test]
fn cwnd_limited_clamp() {
    let mut p = pacer(100, 10_000_000);
    drain_burst(&mut p);
    // 119_000 + 1200 reaches the 120_000-byte window.
    send(&mut p, T0, 119_000, 10);
    assert_eq!(p.lumpy_tokens(), 0);
    assert!(!p.is_pacing_limited());
    send(&mut p, T0, 10 * MSS, 11);
    assert_eq!(p.lumpy_tokens(), 1);
}

#[test]
fn loss_cancels_burst() {
    let mut p = pacer(100, 10_000_000);
    send(&mut p, T0, 0, 0);
    assert_eq!(p.burst_tokens(), 9);
    lose_one(&mut p, false, &rtt());
    assert_eq!(p.burst_tokens(), 0);
    send(&mut p, T0, MSS, 1);
    assert_eq!(p.burst_tokens(), 0);
    assert_eq!(p.lumpy_tokens(), 1);
    assert_eq!(p.get_next_release_time().time, ReleaseTime::At(T0 + DELAY_10_MBPS));
}

#[test]
fn rate_cap_limits_cwnd() {
    let s = FixedCongestion::new(1_000_000, MSS, Bandwidth::from_bits_per_second(10_000_000));
    let mut p = Pacer::new(true, s, Some(Bandwidth::from_bits_per_second(5_000_000)));
    let mut stats = RecoveryStats { startup_exit_cwnd: None };
    p.on_congestion_event(true, 0, 0, T0, &[], &[], 0, &rtt(), &mut stats);
    assert_eq!(p.get_congestion_window(), 39_062);
    assert_eq!(p.burst_tokens(), INITIAL_UNPACED_BURST);
}

#[test]
fn rate_cap_needs_rtt_update() {
    let s = FixedCongestion::new(1_000_000, MSS, Bandwidth::from_bits_per_second(10_000_000));
    let mut p = Pacer::new(true, s, Some(Bandwidth::from_bits_per_second(5_000_000)));
    let mut stats = RecoveryStats { startup_exit_cwnd: None };
    p.on_congestion_event(false, 0, 0, T0, &[], &[], 0, &rtt(), &mut stats);
    assert_eq!(p.get_congestion_window(), 1_000_000);
}

#[test]
fn disabled_pacer_passes_through() {
    let s = sender(3, 10_000_000);
    let mut p = Pacer::new(false, s, Some(Bandwidth::from_bits_per_second(1_000_000)));
    for i in 0..20usize {
        send(&mut p, T0 + i as u64, i * MSS, i as u64);
        assert_eq!(
            p.get_next_release_time(),
            ReleaseDecision { time: ReleaseTime::Immediate, allow_burst: true }
        );
    }
    lose_one(&mut p, true, &rtt());
    assert_eq!(p.burst_tokens(), INITIAL_UNPACED_BURST);
    assert_eq!(p.lumpy_tokens(), 0);
    assert_eq!(p.get_congestion_window(), 3 * MSS);
    assert_eq!(p.pacing_rate(0, &rtt()).to_bits_per_second(), 10_000_000);
}

#[test]
fn non_retransmissible_is_inert() {
    let mut p = pacer(100, 10_000_000);
    drain_burst(&mut p);
    send(&mut p, T0, 10 * MSS, 10);
    let before = p.get_next_release_time();
    for i in 0..5u64 {
        p.on_packet_sent(T0 + 5_000_000, 0, 20 + i, 50, false, &rtt());
    }
    assert_eq!(p.get_next_release_time(), before);
    assert_eq!(p.burst_tokens(), 0);
    assert_eq!(p.lumpy_tokens(), 1);
    assert!(p.is_pacing_limited());
}

#[test]
fn pacing_rate_is_capped() {
    let cap = Bandwidth::from_bits_per_second(5_000_000);
    let fast = Pacer::new(true, sender(100, 10_000_000), Some(cap));
    assert_eq!(fast.pacing_rate(0, &rtt()).to_bits_per_second(), 5_000_000);
    let slow = Pacer::new(true, sender(100, 2_000_000), Some(cap));
    assert_eq!(slow.pacing_rate(0, &rtt()).to_bits_per_second(), 2_000_000);
    let open = pacer(100, 10_000_000);
    assert_eq!(open.pacing_rate(0, &rtt()).to_bits_per_second(), 10_000_000);
}

#[test]
fn capped_rate_sets_delay() {
    let cap = Bandwidth::from_bits_per_second(5_000_000);
    let mut p = Pacer::new(true, sender(100, 10_000_000), Some(cap));
    drain_burst(&mut p);
    send(&mut p, T0, 10 * MSS, 10);
    assert_eq!(p.get_next_release_time().time, ReleaseTime::At(T0 + 2 * DELAY_10_MBPS));
}

#[test]
fn make_up_for_lost_time_keeps_lump() {
    let mut p = pacer(100, 10_000_000);
    drain_burst(&mut p);
    send(&mut p, T0, 10 * MSS, 10);
    assert!(p.is_pacing_limited());
    assert_eq!(p.lumpy_tokens(), 1);
    send(&mut p, T0, 11 * MSS, 11);
    assert_eq!(p.lumpy_tokens(), 0);
}

#[test]
fn app_limited_starts_fresh_lump() {
    let mut p = pacer(100, 10_000_000);
    drain_burst(&mut p);
    send(&mut p, T0, 10 * MSS, 10);
    assert!(p.is_pacing_limited());
    p.on_app_limited(11 * MSS);
    assert!(!p.is_pacing_limited());
    send(&mut p, T0, 11 * MSS, 11);
    assert_eq!(p.lumpy_tokens(), 1);
}

#[test]
fn clock_is_monotone_when_paced() {
    let mut p = pacer(100, 10_000_000);
    drain_burst(&mut p);
    let mut last: u64 = 0;
    let times: [u64; 6] = [T0, T0, T0 + 100, T0 + 5_000_000, T0 + 5_000_000, T0 + 9_000_000];
    for (i, &at) in times.iter().enumerate() {
        send(&mut p, at, (10 + i) * MSS, 10 + i as u64);
        match p.get_next_release_time().time {
            ReleaseTime::At(t) => {
                assert!(t >= last);
                assert!(t >= at);
                last = t;
            }
            ReleaseTime::Immediate => panic!("a paced send sets a release instant"),
        }
    }
}

#[test]
fn recovery_skips_quiescence_refill() {
    let mut s = sender(100, 10_000_000);
    s.in_recovery = true;
    let mut p = Pacer::new(true, s, None);
    lose_one(&mut p, false, &rtt());
    send(&mut p, T0, 0, 0);
    assert_eq!(p.burst_tokens(), 0);
    assert_eq!(p.get_next_release_time().time, ReleaseTime::At(T0 + DELAY_10_MBPS));
}

#[test]
fn zero_cwnd_gives_no_burst() {
    let mut p = pacer(0, 10_000_000);
    send(&mut p, T0, 0, 0);
    assert_eq!(p.burst_tokens(), 0);
    assert_eq!(p.lumpy_tokens(), 0);
    assert_eq!(p.get_next_release_time().time, ReleaseTime::At(T0 + DELAY_10_MBPS));
}

#[test]
fn zero_rate_releases_at_send_time() {
    let mut p = pacer(100, 0);
    drain_burst(&mut p);
    send(&mut p, T0 + 7, 10 * MSS, 10);
    assert_eq!(p.get_next_release_time().time, ReleaseTime::At(T0 + 7));
    assert_eq!(p.lumpy_tokens(), 0);
}

#[test]
fn update_mss_changes_burst_size() {
    let mut p = pacer(100, 10_000_000);
    p.update_mss(60_000);
    send(&mut p, T0, 0, 0);
    assert_eq!(p.burst_tokens(), 1);
}

#[test]
fn pass_through_queries() {
    let mut p = pacer(100, 10_000_000);
    assert_eq!(p.get_congestion_window(), 120_000);
    assert_eq!(p.bandwidth_estimate(&rtt()).to_bits_per_second(), 10_000_000);
    assert_eq!(p.ssthresh(), None);
    assert_eq!(p.state_str(), "fixed");
    assert!(p.is_app_limited(0));
    assert!(p.is_cwnd_limited(120_000));
    let before = p.get_next_release_time();
    p.on_packet_neutered(3);
    p.on_retransmission_timeout(true);
    assert_eq!(p.get_next_release_time(), before);
    assert_eq!(p.burst_tokens(), INITIAL_UNPACED_BURST);
}
