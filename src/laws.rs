use vstd::prelude::*;
use crate::bandwidth::Bandwidth;
use crate::congestion::{CongestionControl, Lost, RttStats};
use crate::pacer::PacerModel;
use crate::release::{ReleaseDecision, ReleaseTime, release_le};

verus! {

/// A disabled pacer passes everything through: its decision is always an
/// immediate release with bursting allowed, and no send, congestion event or
/// application-limited notice changes its tokens or its release time (nor
/// enables it).
pub proof fn disabled_pass_through<C: CongestionControl>(
    m: PacerModel<C>,
    sent_time: u64,
    bytes_in_flight: usize,
    packet_number: u64,
    bytes: usize,
    is_retransmissible: bool,
    rtt_updated: bool,
    lost_packets: Seq<Lost>,
    rtt_stats: RttStats,
    sender: C,
)
    requires
        !m.enabled,
    ensures
        m.decision() == (ReleaseDecision { time: ReleaseTime::Immediate, allow_burst: true }),
        ({
            let s = m.sent(
                sent_time,
                bytes_in_flight,
                packet_number,
                bytes,
                is_retransmissible,
                rtt_stats,
            );
            &&& !s.enabled
            &&& s.burst_tokens == m.burst_tokens
            &&& s.lumpy_tokens == m.lumpy_tokens
            &&& s.ideal_next_packet_send_time == m.ideal_next_packet_send_time
        }),
        ({
            let c = m.congestion_event_with(rtt_updated, lost_packets, rtt_stats, sender);
            &&& !c.enabled
            &&& c.burst_tokens == m.burst_tokens
            &&& c.lumpy_tokens == m.lumpy_tokens
            &&& c.ideal_next_packet_send_time == m.ideal_next_packet_send_time
        }),
        ({
            let a = m.app_limited(bytes_in_flight);
            &&& !a.enabled
            &&& a.burst_tokens == m.burst_tokens
            &&& a.lumpy_tokens == m.lumpy_tokens
            &&& a.ideal_next_packet_send_time == m.ideal_next_packet_send_time
        }),
{
}

/// The burst granted on leaving quiescence is at most the initial burst size
/// and at most the congestion window in packets, and so is what is left of it
/// after the send.
pub proof fn quiescence_burst_within_cwnd<C: CongestionControl>(
    m: PacerModel<C>,
    sent_time: u64,
    bytes_in_flight: usize,
    packet_number: u64,
    bytes: usize,
    rtt_stats: RttStats,
)
    requires
        m.enabled,
        PacerModel::<C>::leaves_quiescence(
            bytes_in_flight,
            m.sender.after_packet_sent(
                sent_time,
                bytes_in_flight,
                packet_number,
                bytes,
                true,
                rtt_stats,
            ),
        ),
    ensures
        ({
            let sender = m.sender.after_packet_sent(
                sent_time,
                bytes_in_flight,
                packet_number,
                bytes,
                true,
                rtt_stats,
            );
            let burst = m.burst_at_send(bytes_in_flight, sender);
            let s = m.sent(sent_time, bytes_in_flight, packet_number, bytes, true, rtt_stats);
            &&& burst <= m.initial_burst_size
            &&& burst <= sender.spec_cwnd_in_packets()
            &&& s.burst_tokens <= m.initial_burst_size
            &&& s.burst_tokens <= sender.spec_cwnd_in_packets()
        }),
{
}

/// A congestion event that reports a loss leaves an enabled pacer with no
/// burst tokens.
pub proof fn loss_cancels_burst<C: CongestionControl>(
    m: PacerModel<C>,
    rtt_updated: bool,
    lost_packets: Seq<Lost>,
    rtt_stats: RttStats,
    sender: C,
)
    requires
        m.enabled,
        lost_packets.len() > 0,
    ensures
        m.congestion_event_with(rtt_updated, lost_packets, rtt_stats, sender).burst_tokens == 0,
{
}

/// Without burst tokens, a send that does not leave quiescence leaves the
/// pacer without burst tokens.
pub proof fn no_burst_until_quiescence<C: CongestionControl>(
    m: PacerModel<C>,
    sent_time: u64,
    bytes_in_flight: usize,
    packet_number: u64,
    bytes: usize,
    is_retransmissible: bool,
    rtt_stats: RttStats,
)
    requires
        m.burst_tokens == 0,
        !PacerModel::<C>::leaves_quiescence(
            bytes_in_flight,
            m.sender.after_packet_sent(
                sent_time,
                bytes_in_flight,
                packet_number,
                bytes,
                is_retransmissible,
                rtt_stats,
            ),
        ),
    ensures
        m.sent(
            sent_time,
            bytes_in_flight,
            packet_number,
            bytes,
            is_retransmissible,
            rtt_stats,
        ).burst_tokens == 0,
{
}

/// A paced send (one that finds no burst token) never moves the release
/// time earlier, and sets it no earlier than the send itself.
pub proof fn paced_send_clock_monotone<C: CongestionControl>(
    m: PacerModel<C>,
    sent_time: u64,
    bytes_in_flight: usize,
    packet_number: u64,
    bytes: usize,
    rtt_stats: RttStats,
)
    requires
        m.enabled,
        bytes_in_flight + bytes <= usize::MAX,
        m.burst_at_send(
            bytes_in_flight,
            m.sender.after_packet_sent(
                sent_time,
                bytes_in_flight,
                packet_number,
                bytes,
                true,
                rtt_stats,
            ),
        ) == 0,
    ensures
        ({
            let s = m.sent(sent_time, bytes_in_flight, packet_number, bytes, true, rtt_stats);
            &&& release_le(m.ideal_next_packet_send_time, s.ideal_next_packet_send_time)
            &&& release_le(ReleaseTime::At(sent_time), s.ideal_next_packet_send_time)
        }),
{
}

/// Sending a packet that is not retransmissible changes none of the pacer's
/// tokens, release time or make-up flag.
pub proof fn non_retransmissible_inert<C: CongestionControl>(
    m: PacerModel<C>,
    sent_time: u64,
    bytes_in_flight: usize,
    packet_number: u64,
    bytes: usize,
    rtt_stats: RttStats,
)
    ensures
        ({
            let s = m.sent(sent_time, bytes_in_flight, packet_number, bytes, false, rtt_stats);
            &&& s.burst_tokens == m.burst_tokens
            &&& s.lumpy_tokens == m.lumpy_tokens
            &&& s.ideal_next_packet_send_time == m.ideal_next_packet_send_time
            &&& s.pacing_limited == m.pacing_limited
        }),
{
}

/// An enabled pacer with a maximum rate never paces faster than it.
pub proof fn rate_never_exceeds_cap<C: CongestionControl>(
    m: PacerModel<C>,
    cap: Bandwidth,
    bytes_in_flight: usize,
    rtt_stats: RttStats,
)
    requires
        m.enabled,
        m.max_pacing_rate == Some(cap),
    ensures
        m.pacing_rate(bytes_in_flight, rtt_stats).bps() <= cap.bps(),
{
}

/// While making up for lost time with tokens left in the lump, a paced send
/// takes one token from the current lump instead of starting a fresh one.
pub proof fn make_up_keeps_lump<C: CongestionControl>(
    m: PacerModel<C>,
    sent_time: u64,
    bytes_in_flight: usize,
    packet_number: u64,
    bytes: usize,
    rtt_stats: RttStats,
)
    requires
        m.enabled,
        m.pacing_limited,
        m.lumpy_tokens > 0,
        m.burst_at_send(
            bytes_in_flight,
            m.sender.after_packet_sent(
                sent_time,
                bytes_in_flight,
                packet_number,
                bytes,
                true,
                rtt_stats,
            ),
        ) == 0,
    ensures
        m.sent(sent_time, bytes_in_flight, packet_number, bytes, true, rtt_stats).lumpy_tokens
            == m.lumpy_tokens - 1,
{
}

} // verus!
