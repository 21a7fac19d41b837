use vstd::prelude::*;
use crate::bandwidth::{Bandwidth, bytes_per_period, scaled_bps, transfer_time_nanos};
use crate::congestion::{Acked, CongestionControl, Lost, RecoveryStats, RttStats};
use crate::release::{ReleaseDecision, ReleaseTime, max_with, saturating_add};

verus! {

/// Number of packets that the pacer lets out back to back during pacing.
/// A flow whose estimated bandwidth is below the lumpy minimum gets one.
pub const LUMPY_PACING_SIZE: usize = 2;

/// Divisor of the congestion window, in packets, that bounds a lump: a lump
/// is at most a quarter of the window.
pub const LUMPY_PACING_CWND_DIVISOR: usize = 4;

/// The estimated bandwidth, in kbit/s, below which the pacer allows no lumps.
pub const LUMPY_PACING_MIN_BANDWIDTH_KBPS: u64 = 1_200;

/// Largest burst allowed on leaving quiescence. The burst never exceeds the
/// congestion window in packets.
pub const INITIAL_UNPACED_BURST: usize = 10;

/// The headroom applied to the maximum pacing rate before it caps the
/// congestion window: a factor of 5/4.
pub const MAX_RATE_HEADROOM_NUM: u64 = 5;

pub const MAX_RATE_HEADROOM_DEN: u64 = 4;

/// Spreads outgoing packets over time so that the sending rate follows the
/// rate of the congestion controller that it wraps, while allowing short
/// bursts.
pub struct Pacer<C> {
    enabled: bool,
    sender: C,
    max_pacing_rate: Option<Bandwidth>,
    /// Packets that may still leave unpaced after quiescence.
    burst_tokens: usize,
    /// When the next packet may be sent.
    ideal_next_packet_send_time: ReleaseTime,
    initial_burst_size: usize,
    /// Packets that may leave back to back within the current lump, used once
    /// the burst tokens ran out.
    lumpy_tokens: usize,
    /// Whether pacing throttled the last send, so that the next one makes up
    /// for lost time.
    pacing_limited: bool,
}

/// The abstract state of a [`Pacer`].
pub struct PacerModel<C> {
    pub enabled: bool,
    pub sender: C,
    pub max_pacing_rate: Option<Bandwidth>,
    pub burst_tokens: usize,
    pub ideal_next_packet_send_time: ReleaseTime,
    pub initial_burst_size: usize,
    pub lumpy_tokens: usize,
    pub pacing_limited: bool,
}

impl<C> View for Pacer<C> {
    type V = PacerModel<C>;

    closed spec fn view(&self) -> PacerModel<C> {
        PacerModel {
            enabled: self.enabled,
            sender: self.sender,
            max_pacing_rate: self.max_pacing_rate,
            burst_tokens: self.burst_tokens,
            ideal_next_packet_send_time: self.ideal_next_packet_send_time,
            initial_burst_size: self.initial_burst_size,
            lumpy_tokens: self.lumpy_tokens,
            pacing_limited: self.pacing_limited,
        }
    }
}

/// The rate that the pacer paces at, given the sender's rate: the sender's
/// rate, or the cap when the pacer is enabled and the cap is lower.
pub open spec fn capped_rate(
    enabled: bool,
    max_pacing_rate: Option<Bandwidth>,
    sender_rate: Bandwidth,
) -> Bandwidth {
    match max_pacing_rate {
        Some(cap) if enabled => if cap.bps() <= sender_rate.bps() {
            cap
        } else {
            sender_rate
        },
        _ => sender_rate,
    }
}

/// Size of a fresh lump: a quarter of the window in packets, at least one
/// and at most [`LUMPY_PACING_SIZE`]; one only when the bandwidth is low or
/// the send reaches the congestion window.
pub open spec fn fresh_lump(
    cwnd_in_packets: usize,
    bandwidth_estimate: Bandwidth,
    in_flight_after: int,
    cwnd: usize,
) -> usize {
    if bandwidth_estimate.bps() < LUMPY_PACING_MIN_BANDWIDTH_KBPS * 1000 || in_flight_after
        >= cwnd {
        1
    } else {
        let quarter = cwnd_in_packets / LUMPY_PACING_CWND_DIVISOR;
        if quarter < 1 {
            1
        } else if quarter > LUMPY_PACING_SIZE {
            LUMPY_PACING_SIZE
        } else {
            quarter
        }
    }
}

impl<C: CongestionControl> PacerModel<C> {
    pub open spec fn decision(self) -> ReleaseDecision {
        if !self.enabled {
            ReleaseDecision { time: ReleaseTime::Immediate, allow_burst: true }
        } else {
            ReleaseDecision {
                time: self.ideal_next_packet_send_time,
                allow_burst: self.burst_tokens > 0 || self.lumpy_tokens > 0,
            }
        }
    }

    pub open spec fn pacing_rate(self, bytes_in_flight: usize, rtt_stats: RttStats) -> Bandwidth {
        capped_rate(
            self.enabled,
            self.max_pacing_rate,
            self.sender.spec_pacing_rate(bytes_in_flight, rtt_stats),
        )
    }

    /// Whether a send with `bytes_in_flight` bytes already in flight leaves
    /// quiescence, given the sender after the send.
    pub open spec fn leaves_quiescence(bytes_in_flight: usize, sender: C) -> bool {
        bytes_in_flight == 0 && !sender.spec_in_recovery()
    }

    /// The burst tokens at hand for a send, after any refill on leaving
    /// quiescence.
    pub open spec fn burst_at_send(self, bytes_in_flight: usize, sender: C) -> usize {
        if Self::leaves_quiescence(bytes_in_flight, sender) {
            if self.initial_burst_size <= sender.spec_cwnd_in_packets() {
                self.initial_burst_size
            } else {
                sender.spec_cwnd_in_packets()
            }
        } else {
            self.burst_tokens
        }
    }

    /// The lumpy tokens at hand for a paced send: the current lump while
    /// making up for lost time, a fresh lump otherwise.
    pub open spec fn lump_at_send(
        self,
        bytes_in_flight: usize,
        bytes: usize,
        rtt_stats: RttStats,
        sender: C,
    ) -> usize {
        if !self.pacing_limited || self.lumpy_tokens == 0 {
            fresh_lump(
                sender.spec_cwnd_in_packets(),
                sender.spec_bandwidth_estimate(rtt_stats),
                bytes_in_flight + bytes,
                sender.spec_cwnd(),
            )
        } else {
            self.lumpy_tokens
        }
    }

    /// The state after a packet of `bytes` bytes was sent at `sent_time`.
    pub open spec fn sent(
        self,
        sent_time: u64,
        bytes_in_flight: usize,
        packet_number: u64,
        bytes: usize,
        is_retransmissible: bool,
        rtt_stats: RttStats,
    ) -> PacerModel<C> {
        let sender = self.sender.after_packet_sent(
            sent_time,
            bytes_in_flight,
            packet_number,
            bytes,
            is_retransmissible,
            rtt_stats,
        );
        let base = PacerModel { sender, ..self };
        if !self.enabled || !is_retransmissible {
            base
        } else {
            let burst = self.burst_at_send(bytes_in_flight, sender);
            if burst > 0 {
                PacerModel {
                    burst_tokens: (burst - 1) as usize,
                    ideal_next_packet_send_time: ReleaseTime::Immediate,
                    pacing_limited: false,
                    ..base
                }
            } else {
                let in_flight_after = (bytes_in_flight + bytes) as usize;
                let delay = transfer_time_nanos(
                    base.pacing_rate(in_flight_after, rtt_stats).bps(),
                    bytes as nat,
                );
                let start = max_with(self.ideal_next_packet_send_time, sent_time);
                PacerModel {
                    burst_tokens: 0,
                    lumpy_tokens: (self.lump_at_send(bytes_in_flight, bytes, rtt_stats, sender)
                        - 1) as usize,
                    ideal_next_packet_send_time: ReleaseTime::At(
                        saturating_add(start->At_0 as nat, delay) as u64,
                    ),
                    pacing_limited: sender.spec_can_send(in_flight_after),
                    ..base
                }
            }
        }
    }

    /// The window cap that a maximum pacing rate sets for a smoothed
    /// round-trip time: the bytes that 5/4 of the rate moves in one RTT,
    /// at most `usize::MAX`.
    pub open spec fn rate_cap_cwnd(max_pacing_rate: Bandwidth, smoothed_rtt: u64) -> usize {
        let b = bytes_per_period(
            scaled_bps(
                max_pacing_rate.bps(),
                MAX_RATE_HEADROOM_NUM as nat,
                MAX_RATE_HEADROOM_DEN as nat,
            ),
            smoothed_rtt as nat,
        );
        if b > usize::MAX { usize::MAX } else { b as usize }
    }

    /// The pacer's part of a congestion event, once the sender has taken it
    /// and become `sender`.
    pub open spec fn congestion_event_with(
        self,
        rtt_updated: bool,
        lost_packets: Seq<Lost>,
        rtt_stats: RttStats,
        sender: C,
    ) -> PacerModel<C> {
        let base = PacerModel { sender, ..self };
        if !self.enabled {
            base
        } else {
            let burst_tokens = if lost_packets.len() > 0 { 0 } else { self.burst_tokens };
            let sender = match self.max_pacing_rate {
                Some(rate) if rtt_updated => sender.after_limit_cwnd(
                    Self::rate_cap_cwnd(rate, rtt_stats.smoothed_rtt),
                ),
                _ => sender,
            };
            PacerModel { burst_tokens, sender, ..self }
        }
    }

    pub open spec fn app_limited(self, bytes_in_flight: usize) -> PacerModel<C> {
        PacerModel {
            pacing_limited: false,
            sender: self.sender.after_app_limited(bytes_in_flight),
            ..self
        }
    }

    pub open spec fn is_cwnd_limited(self, bytes_in_flight: usize) -> bool {
        !self.pacing_limited && self.sender.spec_is_cwnd_limited(bytes_in_flight)
    }
}

impl<C: CongestionControl> Pacer<C> {
    /// A pacer around `congestion`, with an optional cap on its rate.
    pub fn new(enabled: bool, congestion: C, max_pacing_rate: Option<Bandwidth>) -> (r: Self)
        ensures
            r@ == (PacerModel {
                enabled,
                sender: congestion,
                max_pacing_rate,
                burst_tokens: INITIAL_UNPACED_BURST,
                ideal_next_packet_send_time: ReleaseTime::Immediate,
                initial_burst_size: INITIAL_UNPACED_BURST,
                lumpy_tokens: 0,
                pacing_limited: false,
            }),
    {
        Pacer {
            enabled,
            sender: congestion,
            max_pacing_rate,
            burst_tokens: INITIAL_UNPACED_BURST,
            ideal_next_packet_send_time: ReleaseTime::Immediate,
            initial_burst_size: INITIAL_UNPACED_BURST,
            lumpy_tokens: 0,
            pacing_limited: false,
        }
    }

    pub fn get_next_release_time(&self) -> (r: ReleaseDecision)
        ensures
            r == self@.decision(),
    {
        if !self.enabled {
            return ReleaseDecision { time: ReleaseTime::Immediate, allow_burst: true };
        }
        let allow_burst = self.burst_tokens > 0 || self.lumpy_tokens > 0;
        ReleaseDecision { time: self.ideal_next_packet_send_time, allow_burst }
    }

    pub fn pacing_rate(&self, bytes_in_flight: usize, rtt_stats: &RttStats) -> (r: Bandwidth)
        ensures
            r == self@.pacing_rate(bytes_in_flight, *rtt_stats),
    {
        let sender_rate = self.sender.pacing_rate(bytes_in_flight, rtt_stats);
        match self.max_pacing_rate {
            Some(rate) if self.enabled => rate.min(sender_rate),
            _ => sender_rate,
        }
    }

    pub fn on_packet_sent(
        &mut self,
        sent_time: u64,
        bytes_in_flight: usize,
        packet_number: u64,
        bytes: usize,
        is_retransmissible: bool,
        rtt_stats: &RttStats,
    )
        requires
            bytes_in_flight + bytes <= usize::MAX,
        ensures
            final(self)@ == old(self)@.sent(
                sent_time,
                bytes_in_flight,
                packet_number,
                bytes,
                is_retransmissible,
                *rtt_stats,
            ),
    {
        self.sender.on_packet_sent(
            sent_time,
            bytes_in_flight,
            packet_number,
            bytes,
            is_retransmissible,
            rtt_stats,
        );

        if !self.enabled || !is_retransmissible {
            return;
        }
        // In recovery the connection is not coming out of quiescence.
        if bytes_in_flight == 0 && !self.sender.is_in_recovery() {
            // Leaving quiescence: allow one bulk write, no larger than the
            // congestion window in packets.
            let cwnd_packets = self.sender.get_congestion_window_in_packets();
            self.burst_tokens = if self.initial_burst_size <= cwnd_packets {
                self.initial_burst_size
            } else {
                cwnd_packets
            };
        }
        if self.burst_tokens > 0 {
            self.burst_tokens = self.burst_tokens - 1;
            self.ideal_next_packet_send_time = ReleaseTime::Immediate;
            self.pacing_limited = false;
            return;
        }
        // The next packet may leave once this one has been transferred, at
        // the rate for the bytes in flight including this packet.
        let in_flight_after = bytes_in_flight + bytes;
        let delay = self.pacing_rate(in_flight_after, rtt_stats).transfer_time(bytes);

        if !self.pacing_limited || self.lumpy_tokens == 0 {
            // The application or the window throttled sending, or the lump
            // ran out: start a fresh one.
            let quarter = self.sender.get_congestion_window_in_packets()
                / LUMPY_PACING_CWND_DIVISOR;
            self.lumpy_tokens = if quarter < 1 {
                1
            } else if quarter > LUMPY_PACING_SIZE {
                LUMPY_PACING_SIZE
            } else {
                quarter
            };
            let min_bandwidth = Bandwidth::from_kbits_per_second(LUMPY_PACING_MIN_BANDWIDTH_KBPS);
            if self.sender.bandwidth_estimate(rtt_stats).to_bits_per_second()
                < min_bandwidth.to_bits_per_second() {
                // At low rates one full-sized packet is already about 10 ms
                // of queueing: send one at a time.
                self.lumpy_tokens = 1;
            }
            if in_flight_after >= self.sender.get_congestion_window() {
                // No lumps while the window limits sending.
                self.lumpy_tokens = 1;
            }
        }
        self.lumpy_tokens = self.lumpy_tokens - 1;
        self.ideal_next_packet_send_time.set_max(sent_time);
        self.ideal_next_packet_send_time.inc(delay);
        // Stop making up for lost time once the sender stops sending.
        self.pacing_limited = self.sender.can_send(in_flight_after);
    }

    pub fn on_congestion_event(
        &mut self,
        rtt_updated: bool,
        prior_in_flight: usize,
        bytes_in_flight: usize,
        event_time: u64,
        acked_packets: &[Acked],
        lost_packets: &[Lost],
        least_unacked: u64,
        rtt_stats: &RttStats,
        recovery_stats: &mut RecoveryStats,
    )
        ensures
            ({
                let (sender, stats) = old(self)@.sender.after_congestion_event(
                    rtt_updated,
                    prior_in_flight,
                    bytes_in_flight,
                    event_time,
                    acked_packets@,
                    lost_packets@,
                    least_unacked,
                    *rtt_stats,
                    *old(recovery_stats),
                );
                &&& *final(recovery_stats) == stats
                &&& final(self)@ == old(self)@.congestion_event_with(
                    rtt_updated,
                    lost_packets@,
                    *rtt_stats,
                    sender,
                )
            }),
    {
        self.sender.on_congestion_event(
            rtt_updated,
            prior_in_flight,
            bytes_in_flight,
            event_time,
            acked_packets,
            lost_packets,
            least_unacked,
            rtt_stats,
            recovery_stats,
        );

        if !self.enabled {
            return;
        }
        if lost_packets.len() > 0 {
            // Losses mean congestion: cancel the burst credit.
            self.burst_tokens = 0;
        }
        if let Some(max_pacing_rate) = self.max_pacing_rate {
            if rtt_updated {
                let max_rate = max_pacing_rate.scale(MAX_RATE_HEADROOM_NUM, MAX_RATE_HEADROOM_DEN);
                let max_cwnd = max_rate.to_bytes_per_period(rtt_stats.smoothed_rtt);
                let max_cwnd_bytes: usize = if max_cwnd as u128 > usize::MAX as u128 {
                    usize::MAX
                } else {
                    max_cwnd as usize
                };
                self.sender.limit_cwnd(max_cwnd_bytes);
            }
        }
    }
    pub fn state_str(&self) -> (r: &'static str)
        ensures
            r@ == self@.sender.spec_state_str(),
    {
        self.sender.state_str()
    }

    pub fn get_congestion_window(&self) -> (r: usize)
        ensures
            r == self@.sender.spec_cwnd(),
    {
        self.sender.get_congestion_window()
    }

    pub fn on_packet_neutered(&mut self, packet_number: u64)
        ensures
            final(self)@ == (PacerModel {
                sender: old(self)@.sender.after_packet_neutered(packet_number),
                ..old(self)@
            }),
    {
        self.sender.on_packet_neutered(packet_number);
    }

    pub fn on_retransmission_timeout(&mut self, packets_retransmitted: bool)
        ensures
            final(self)@ == (PacerModel {
                sender: old(self)@.sender.after_retransmission_timeout(packets_retransmitted),
                ..old(self)@
            }),
    {
        self.sender.on_retransmission_timeout(packets_retransmitted)
    }

    pub fn bandwidth_estimate(&self, rtt_stats: &RttStats) -> (r: Bandwidth)
        ensures
            r == self@.sender.spec_bandwidth_estimate(*rtt_stats),
    {
        self.sender.bandwidth_estimate(rtt_stats)
    }

    /// The application has nothing to send: the next send starts a fresh
    /// lump.
    pub fn on_app_limited(&mut self, bytes_in_flight: usize)
        ensures
            final(self)@ == old(self)@.app_limited(bytes_in_flight),
    {
        self.pacing_limited = false;
        self.sender.on_app_limited(bytes_in_flight);
    }

    pub fn update_mss(&mut self, new_mss: usize)
        ensures
            final(self)@ == (PacerModel {
                sender: old(self)@.sender.after_update_mss(new_mss),
                ..old(self)@
            }),
    {
        self.sender.update_mss(new_mss)
    }

    pub fn ssthresh(&self) -> (r: Option<u64>)
        ensures
            r == self@.sender.spec_ssthresh(),
    {
        self.sender.ssthresh()
    }

    pub fn is_app_limited(&self, bytes_in_flight: usize) -> (r: bool)
        ensures
            r == !self@.is_cwnd_limited(bytes_in_flight),
    {
        !self.is_cwnd_limited(bytes_in_flight)
    }

    pub fn is_cwnd_limited(&self, bytes_in_flight: usize) -> (r: bool)
        ensures
            r == self@.is_cwnd_limited(bytes_in_flight),
    {
        !self.pacing_limited && self.sender.is_cwnd_limited(bytes_in_flight)
    }

    /// Packets that may still leave unpaced after quiescence.
    pub fn burst_tokens(&self) -> (r: usize)
        ensures
            r == self@.burst_tokens,
    {
        self.burst_tokens
    }

    /// Packets that may still leave back to back in the current lump.
    pub fn lumpy_tokens(&self) -> (r: usize)
        ensures
            r == self@.lumpy_tokens,
    {
        self.lumpy_tokens
    }

    /// Whether pacing throttled the last send.
    pub fn is_pacing_limited(&self) -> (r: bool)
        ensures
            r == self@.pacing_limited,
    {
        self.pacing_limited
    }
}

} // verus!
