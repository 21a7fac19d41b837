use vstd::prelude::*;
use crate::bandwidth::Bandwidth;

verus! {

/// A read-only snapshot of the path's round-trip estimates, in nanoseconds.
#[derive(Clone, Copy, Debug, PartialEq, Eq, Structural)]
pub struct RttStats {
    pub latest_rtt: u64,
    pub smoothed_rtt: u64,
    pub min_rtt: u64,
}

/// A packet that the peer acknowledged.
#[derive(Clone, Copy, Debug, PartialEq, Eq, Structural)]
pub struct Acked {
    pub pkt_num: u64,
    pub time_sent: u64,
}

/// A packet declared lost.
#[derive(Clone, Copy, Debug, PartialEq, Eq, Structural)]
pub struct Lost {
    pub packet_number: u64,
    pub bytes_lost: usize,
}

/// Counters that a congestion controller keeps about recovery.
#[derive(Clone, Copy, Debug, PartialEq, Eq, Structural)]
pub struct RecoveryStats {
    /// The congestion window, in bytes, at which the controller left its
    /// start-up phase, once it has.
    pub startup_exit_cwnd: Option<usize>,
}

/// What the pacer needs of the congestion controller that it wraps.
///
/// A controller is a deterministic state machine: each event moves it to the
/// state that its `after_*` spec function gives, and each query answers from
/// the current state as its `spec_*` function says.
pub trait CongestionControl: Sized {
    spec fn spec_can_send(&self, bytes_in_flight: usize) -> bool;

    spec fn spec_pacing_rate(&self, bytes_in_flight: usize, rtt_stats: RttStats) -> Bandwidth;

    spec fn spec_bandwidth_estimate(&self, rtt_stats: RttStats) -> Bandwidth;

    /// The congestion window, in bytes.
    spec fn spec_cwnd(&self) -> usize;

    /// The congestion window, in packets.
    spec fn spec_cwnd_in_packets(&self) -> usize;

    spec fn spec_in_recovery(&self) -> bool;

    spec fn spec_is_cwnd_limited(&self, bytes_in_flight: usize) -> bool;

    spec fn spec_ssthresh(&self) -> Option<u64>;

    spec fn spec_state_str(&self) -> Seq<char>;

    spec fn after_packet_sent(
        self,
        sent_time: u64,
        bytes_in_flight: usize,
        packet_number: u64,
        bytes: usize,
        is_retransmissible: bool,
        rtt_stats: RttStats,
    ) -> Self;

    spec fn after_congestion_event(
        self,
        rtt_updated: bool,
        prior_in_flight: usize,
        bytes_in_flight: usize,
        event_time: u64,
        acked_packets: Seq<Acked>,
        lost_packets: Seq<Lost>,
        least_unacked: u64,
        rtt_stats: RttStats,
        recovery_stats: RecoveryStats,
    ) -> (Self, RecoveryStats);

    spec fn after_packet_neutered(self, packet_number: u64) -> Self;

    spec fn after_retransmission_timeout(self, packets_retransmitted: bool) -> Self;

    spec fn after_app_limited(self, bytes_in_flight: usize) -> Self;

    spec fn after_update_mss(self, new_mss: usize) -> Self;

    /// The controller after its window was capped to `max_cwnd` bytes.
    spec fn after_limit_cwnd(self, max_cwnd: usize) -> Self;

    fn on_packet_sent(
        &mut self,
        sent_time: u64,
        bytes_in_flight: usize,
        packet_number: u64,
        bytes: usize,
        is_retransmissible: bool,
        rtt_stats: &RttStats,
    )
        ensures
            *final(self) == old(self).after_packet_sent(
                sent_time,
                bytes_in_flight,
                packet_number,
                bytes,
                is_retransmissible,
                *rtt_stats,
            ),
    ;

    fn on_congestion_event(
        &mut self,
        rtt_updated: bool,
        prior_in_flight: usize,
        bytes_in_flight: usize,
        event_time: u64,
        acked_packets: &[Acked],
        lost_packets: &[Lost],
        least_unacked: u64,
        rtt_stats: &RttStats,
        recovery_stats: &mut RecoveryStats,
    )
        ensures
            (*final(self), *final(recovery_stats)) == old(self).after_congestion_event(
                rtt_updated,
                prior_in_flight,
                bytes_in_flight,
                event_time,
                acked_packets@,
                lost_packets@,
                least_unacked,
                *rtt_stats,
                *old(recovery_stats),
            ),
    ;

    fn on_packet_neutered(&mut self, packet_number: u64)
        ensures
            *final(self) == old(self).after_packet_neutered(packet_number),
    ;

    fn on_retransmission_timeout(&mut self, packets_retransmitted: bool)
        ensures
            *final(self) == old(self).after_retransmission_timeout(packets_retransmitted),
    ;

    fn on_app_limited(&mut self, bytes_in_flight: usize)
        ensures
            *final(self) == old(self).after_app_limited(bytes_in_flight),
    ;

    fn update_mss(&mut self, new_mss: usize)
        ensures
            *final(self) == old(self).after_update_mss(new_mss),
    ;

    fn limit_cwnd(&mut self, max_cwnd: usize)
        ensures
            *final(self) == old(self).after_limit_cwnd(max_cwnd),
    ;

    fn can_send(&self, bytes_in_flight: usize) -> (r: bool)
        ensures
            r == self.spec_can_send(bytes_in_flight),
    ;

    fn pacing_rate(&self, bytes_in_flight: usize, rtt_stats: &RttStats) -> (r: Bandwidth)
        ensures
            r == self.spec_pacing_rate(bytes_in_flight, *rtt_stats),
    ;

    fn bandwidth_estimate(&self, rtt_stats: &RttStats) -> (r: Bandwidth)
        ensures
            r == self.spec_bandwidth_estimate(*rtt_stats),
    ;

    fn get_congestion_window(&self) -> (r: usize)
        ensures
            r == self.spec_cwnd(),
    ;

    fn get_congestion_window_in_packets(&self) -> (r: usize)
        ensures
            r == self.spec_cwnd_in_packets(),
    ;

    fn is_in_recovery(&self) -> (r: bool)
        ensures
            r == self.spec_in_recovery(),
    ;

    fn is_cwnd_limited(&self, bytes_in_flight: usize) -> (r: bool)
        ensures
            r == self.spec_is_cwnd_limited(bytes_in_flight),
    ;

    fn ssthresh(&self) -> (r: Option<u64>)
        ensures
            r == self.spec_ssthresh(),
    ;

    fn state_str(&self) -> (r: &'static str)
        ensures
            r@ == self.spec_state_str(),
    ;
}

} // verus!
