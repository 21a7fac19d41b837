use vstd::prelude::*;
use crate::bandwidth::Bandwidth;
use crate::congestion::{Acked, CongestionControl, Lost, RecoveryStats, RttStats};

verus! {

/// A congestion controller with a window and rates set by its owner, for a
/// path whose capacity is provisioned and known. Events leave it as it is;
/// only a window cap or a new packet size changes it.
#[derive(Clone, Copy, Debug, PartialEq, Eq, Structural)]
pub struct FixedCongestion {
    /// The congestion window, in bytes.
    pub cwnd: usize,
    /// The maximum packet size, in bytes.
    pub mss: usize,
    pub pacing_rate: Bandwidth,
    pub bandwidth_estimate: Bandwidth,
    pub in_recovery: bool,
}

impl FixedCongestion {
    /// A controller with window `cwnd` bytes, packets of `mss` bytes, and
    /// `rate` both as pacing rate and as bandwidth estimate.
    pub fn new(cwnd: usize, mss: usize, rate: Bandwidth) -> (r: FixedCongestion)
        ensures
            r == (FixedCongestion {
                cwnd,
                mss,
                pacing_rate: rate,
                bandwidth_estimate: rate,
                in_recovery: false,
            }),
    {
        FixedCongestion { cwnd, mss, pacing_rate: rate, bandwidth_estimate: rate, in_recovery: false }
    }
}

impl CongestionControl for FixedCongestion {
    open spec fn spec_can_send(&self, bytes_in_flight: usize) -> bool {
        bytes_in_flight < self.cwnd
    }

    open spec fn spec_pacing_rate(&self, bytes_in_flight: usize, rtt_stats: RttStats) -> Bandwidth {
        self.pacing_rate
    }

    open spec fn spec_bandwidth_estimate(&self, rtt_stats: RttStats) -> Bandwidth {
        self.bandwidth_estimate
    }

    open spec fn spec_cwnd(&self) -> usize {
        self.cwnd
    }

    open spec fn spec_cwnd_in_packets(&self) -> usize {
        if self.mss == 0 {
            0
        } else {
            self.cwnd / self.mss
        }
    }

    open spec fn spec_in_recovery(&self) -> bool {
        self.in_recovery
    }

    open spec fn spec_is_cwnd_limited(&self, bytes_in_flight: usize) -> bool {
        bytes_in_flight >= self.cwnd
    }

    open spec fn spec_ssthresh(&self) -> Option<u64> {
        None
    }

    open spec fn spec_state_str(&self) -> Seq<char> {
        "fixed"@
    }

    open spec fn after_packet_sent(
        self,
        sent_time: u64,
        bytes_in_flight: usize,
        packet_number: u64,
        bytes: usize,
        is_retransmissible: bool,
        rtt_stats: RttStats,
    ) -> Self {
        self
    }

    open spec fn after_congestion_event(
        self,
        rtt_updated: bool,
        prior_in_flight: usize,
        bytes_in_flight: usize,
        event_time: u64,
        acked_packets: Seq<Acked>,
        lost_packets: Seq<Lost>,
        least_unacked: u64,
        rtt_stats: RttStats,
        recovery_stats: RecoveryStats,
    ) -> (Self, RecoveryStats) {
        (self, recovery_stats)
    }

    open spec fn after_packet_neutered(self, packet_number: u64) -> Self {
        self
    }

    open spec fn after_retransmission_timeout(self, packets_retransmitted: bool) -> Self {
        self
    }

    open spec fn after_app_limited(self, bytes_in_flight: usize) -> Self {
        self
    }

    open spec fn after_update_mss(self, new_mss: usize) -> Self {
        FixedCongestion { mss: new_mss, ..self }
    }

    open spec fn after_limit_cwnd(self, max_cwnd: usize) -> Self {
        FixedCongestion {
            cwnd: if self.cwnd <= max_cwnd { self.cwnd } else { max_cwnd },
            ..self
        }
    }

    fn on_packet_sent(
        &mut self,
        sent_time: u64,
        bytes_in_flight: usize,
        packet_number: u64,
        bytes: usize,
        is_retransmissible: bool,
        rtt_stats: &RttStats,
    ) {
    }

    fn on_congestion_event(
        &mut self,
        rtt_updated: bool,
        prior_in_flight: usize,
        bytes_in_flight: usize,
        event_time: u64,
        acked_packets: &[Acked],
        lost_packets: &[Lost],
        least_unacked: u64,
        rtt_stats: &RttStats,
        recovery_stats: &mut RecoveryStats,
    ) {
    }

    fn on_packet_neutered(&mut self, packet_number: u64) {
    }

    fn on_retransmission_timeout(&mut self, packets_retransmitted: bool) {
    }

    fn on_app_limited(&mut self, bytes_in_flight: usize) {
    }

    fn update_mss(&mut self, new_mss: usize) {
        self.mss = new_mss;
    }

    fn limit_cwnd(&mut self, max_cwnd: usize) {
        if max_cwnd < self.cwnd {
            self.cwnd = max_cwnd;
        }
    }

    fn can_send(&self, bytes_in_flight: usize) -> (r: bool) {
        bytes_in_flight < self.cwnd
    }

    fn pacing_rate(&self, bytes_in_flight: usize, rtt_stats: &RttStats) -> (r: Bandwidth) {
        self.pacing_rate
    }

    fn bandwidth_estimate(&self, rtt_stats: &RttStats) -> (r: Bandwidth) {
        self.bandwidth_estimate
    }

    fn get_congestion_window(&self) -> (r: usize) {
        self.cwnd
    }

    fn get_congestion_window_in_packets(&self) -> (r: usize) {
        if self.mss == 0 {
            0
        } else {
            self.cwnd / self.mss
        }
    }

    fn is_in_recovery(&self) -> (r: bool) {
        self.in_recovery
    }

    fn is_cwnd_limited(&self, bytes_in_flight: usize) -> (r: bool) {
        bytes_in_flight >= self.cwnd
    }

    fn ssthresh(&self) -> (r: Option<u64>) {
        None
    }

    fn state_str(&self) -> (r: &'static str) {
        proof {
            reveal_strlit("fixed");
        }
        "fixed"
    }
}

} // verus!
