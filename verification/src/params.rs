//! Congestion-control parameters of a circuit.

use vstd::prelude::*;
use crate::error::CircuitError;

verus! {

/// Bounds of the fixed flow-control window, in cells.
#[derive(Clone, Copy, Debug, PartialEq, Eq, Structural)]
pub struct FixedWindowParams {
    pub circ_window_start: u32,
    pub circ_window_min: u32,
    pub circ_window_max: u32,
}

/// The congestion-control algorithm of a circuit.
#[derive(Clone, Copy, Debug, PartialEq, Eq, Structural)]
pub enum Algorithm {
    FixedWindow(FixedWindowParams),
}

/// Constants of the round-trip estimator. The two `pct` fields are
/// percentages.
#[derive(Clone, Copy, Debug, PartialEq, Eq, Structural)]
pub struct RoundTripEstimatorParams {
    pub ewma_cwnd_pct: u32,
    pub ewma_max: u32,
    pub ewma_ss_max: u32,
    pub rtt_reset_pct: u32,
}

/// Bounds and increments of the congestion window, in cells.
#[derive(Clone, Copy, Debug, PartialEq, Eq, Structural)]
pub struct CongestionWindowParams {
    pub cwnd_init: u32,
    pub cwnd_inc_pct_ss: u32,
    pub cwnd_inc: u32,
    pub cwnd_inc_rate: u32,
    pub cwnd_min: u32,
    pub cwnd_max: u32,
    pub sendme_inc: u32,
}

/// Everything that governs flow control on one circuit.
#[derive(Clone, Copy, Debug, PartialEq, Eq, Structural)]
pub struct CongestionControlParams {
    pub alg: Algorithm,
    pub rtt_params: RoundTripEstimatorParams,
    pub cwnd_params: CongestionWindowParams,
}

/// The parameters that a hop handshake is performed with.
#[derive(Clone, Copy, Debug, PartialEq, Eq, Structural)]
pub struct CircParameters {
    pub extend_by_ed25519_id: bool,
    pub ccontrol: CongestionControlParams,
}

impl CongestionControlParams {
    /// Each window starts within its bounds, every increment is positive and
    /// no percentage of the estimator exceeds 100.
    pub open spec fn wf(&self) -> bool {
        &&& match self.alg {
            Algorithm::FixedWindow(window) => window.circ_window_min <= window.circ_window_start
                <= window.circ_window_max,
        }
        &&& self.rtt_params.ewma_cwnd_pct <= 100
        &&& self.rtt_params.rtt_reset_pct <= 100
        &&& 1 <= self.rtt_params.ewma_ss_max <= self.rtt_params.ewma_max
        &&& self.cwnd_params.cwnd_min <= self.cwnd_params.cwnd_init <= self.cwnd_params.cwnd_max
        &&& self.cwnd_params.cwnd_inc >= 1
        &&& self.cwnd_params.cwnd_inc_rate >= 1
        &&& self.cwnd_params.sendme_inc >= 1
    }

    /// Puts the three parts together, if they are consistent.
    pub fn new(
        alg: Algorithm,
        rtt_params: RoundTripEstimatorParams,
        cwnd_params: CongestionWindowParams,
    ) -> (params: Option<CongestionControlParams>)
        ensures
            params is Some <==> (CongestionControlParams { alg, rtt_params, cwnd_params }).wf(),
            params is Some ==> params->Some_0 == (CongestionControlParams {
                alg,
                rtt_params,
                cwnd_params,
            }),
    {
        let Algorithm::FixedWindow(window) = alg;
        let window_ok = window.circ_window_min <= window.circ_window_start
            && window.circ_window_start <= window.circ_window_max;
        let rtt_ok = rtt_params.ewma_cwnd_pct <= 100 && rtt_params.rtt_reset_pct <= 100
            && 1 <= rtt_params.ewma_ss_max && rtt_params.ewma_ss_max <= rtt_params.ewma_max;
        let cwnd_ok = cwnd_params.cwnd_min <= cwnd_params.cwnd_init && cwnd_params.cwnd_init
            <= cwnd_params.cwnd_max && cwnd_params.cwnd_inc >= 1 && cwnd_params.cwnd_inc_rate >= 1
            && cwnd_params.sendme_inc >= 1;
        if window_ok && rtt_ok && cwnd_ok {
            Some(CongestionControlParams { alg, rtt_params, cwnd_params })
        } else {
            None
        }
    }
}

/// The parameters that every circuit of this client is built with: a fixed
/// window of 1000 cells that may shrink to 100, and a congestion window that
/// starts at 124 cells and grows one cell for every 31 acknowledged.
pub open spec fn standard_circuit_params() -> CongestionControlParams {
    CongestionControlParams {
        alg: Algorithm::FixedWindow(
            FixedWindowParams {
                circ_window_start: 1000,
                circ_window_min: 100,
                circ_window_max: 1000,
            },
        ),
        rtt_params: RoundTripEstimatorParams {
            ewma_cwnd_pct: 50,
            ewma_max: 10,
            ewma_ss_max: 2,
            rtt_reset_pct: 100,
        },
        cwnd_params: CongestionWindowParams {
            cwnd_init: 124,
            cwnd_inc_pct_ss: 100,
            cwnd_inc: 1,
            cwnd_inc_rate: 31,
            cwnd_min: 124,
            cwnd_max: 0xffff_ffff,
            sendme_inc: 31,
        },
    }
}

/// Builds the congestion-control parameters for a new circuit. They are
/// constants, so building them does not fail.
pub fn build_circuit_params() -> (params: Result<CongestionControlParams, CircuitError>)
    ensures
        params == Ok::<CongestionControlParams, CircuitError>(standard_circuit_params()),
        standard_circuit_params().wf(),
{
    Ok(standard_params())
}

fn standard_params() -> (params: CongestionControlParams)
    ensures
        params == standard_circuit_params(),
        params.wf(),
{
    let window = FixedWindowParams {
        circ_window_start: 1000,
        circ_window_min: 100,
        circ_window_max: 1000,
    };
    let rtt_params = RoundTripEstimatorParams {
        ewma_cwnd_pct: 50,
        ewma_max: 10,
        ewma_ss_max: 2,
        rtt_reset_pct: 100,
    };
    let cwnd_params = CongestionWindowParams {
        cwnd_init: 124,
        cwnd_inc_pct_ss: 100,
        cwnd_inc: 1,
        cwnd_inc_rate: 31,
        cwnd_min: 124,
        cwnd_max: u32::MAX,
        sendme_inc: 31,
    };
    CongestionControlParams { alg: Algorithm::FixedWindow(window), rtt_params, cwnd_params }
}

/// The handshake parameters for a new hop: relays are addressed by both of
/// their identities, and flow control follows `build_circuit_params`.
pub fn build_hop_params() -> (params: CircParameters)
    ensures
        params == (CircParameters {
            extend_by_ed25519_id: true,
            ccontrol: standard_circuit_params(),
        }),
        params.ccontrol.wf(),
{
    CircParameters { extend_by_ed25519_id: true, ccontrol: standard_params() }
}

} // verus!
