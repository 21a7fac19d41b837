mod bandwidth;
mod congestion;
mod fixed;
mod laws;
mod pacer;
mod release;
mod stream_id;

pub use bandwidth::Bandwidth;
pub use congestion::{Acked, CongestionControl, Lost, RecoveryStats, RttStats};
pub use fixed::FixedCongestion;
pub use laws::{
    disabled_pass_through, loss_cancels_burst, make_up_keeps_lump, no_burst_until_quiescence,
    non_retransmissible_inert, paced_send_clock_monotone, quiescence_burst_within_cwnd,
    rate_never_exceeds_cap,
};
pub use pacer::{
    INITIAL_UNPACED_BURST, LUMPY_PACING_CWND_DIVISOR, LUMPY_PACING_MIN_BANDWIDTH_KBPS,
    LUMPY_PACING_SIZE, MAX_RATE_HEADROOM_DEN, MAX_RATE_HEADROOM_NUM, Pacer, PacerModel,
};
pub use release::{ReleaseDecision, ReleaseTime};
pub use stream_id::StreamIdAllocator;
