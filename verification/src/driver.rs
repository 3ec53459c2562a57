//! The pipeline driver: a state machine that owns the recurring
//! capture-convert-encode-send cycle. It starts pumping when the session
//! connects, recomputes the plane plan whenever the frame source's
//! dimensions change, stamps each sample with a strictly increasing
//! presentation time, and stops — terminally — on the first stage failure
//! or session-teardown signal. The surrounding tasks perform the outside
//! work (capture, encode, send, waiting for the tick) and report back; all
//! decisions live here.

use vstd::prelude::*;

verus! {

use crate::Dimensions;
use crate::convert::ConvertError;
use crate::convert::PlanePlan;
use crate::convert::RawFrame;
use crate::convert::chroma_size;
use crate::convert::compute_plan;
use crate::convert::convert;
use crate::convert::luma_size;

/// The driver's lifecycle.
#[derive(Clone, Copy, PartialEq, Eq, Structural, Debug)]
pub enum DriverState {
    /// Built, not yet started.
    Idle,
    /// Started; no frame is pulled until the session connects.
    WaitingForConnect,
    /// Pumping one frame per tick.
    Running,
    /// Terminal: no further frame is ever pulled.
    Stopped,
}

/// Why the driver stopped; surfaced to the shutdown coordinator.
#[derive(Clone, Copy, PartialEq, Eq, Structural, Debug)]
pub enum StopReason {
    CaptureFailed,
    ConvertFailed,
    EncodeFailed,
    TransportFailed,
    SessionFailed,
    SessionClosed,
    OperatorStop,
}

/// One stage of the per-tick cycle; a failure of any of them is fatal.
#[derive(Clone, Copy, PartialEq, Eq, Structural, Debug)]
pub enum PipelineStage {
    Capture,
    Convert,
    Encode,
    Send,
}

/// The stop reason a failure of each stage surfaces.
pub open spec fn stage_reason(stage: PipelineStage) -> StopReason {
    match stage {
        PipelineStage::Capture => StopReason::CaptureFailed,
        PipelineStage::Convert => StopReason::ConvertFailed,
        PipelineStage::Encode => StopReason::EncodeFailed,
        PipelineStage::Send => StopReason::TransportFailed,
    }
}

/// The state after the driver is started.
pub open spec fn state_after_start(s: DriverState) -> DriverState {
    if s is Idle {
        DriverState::WaitingForConnect
    } else {
        s
    }
}

/// The state after a connected event: a one-time gate from waiting to
/// running; in every other state the event is a no-op.
pub open spec fn state_after_connected(s: DriverState) -> DriverState {
    if s is WaitingForConnect {
        DriverState::Running
    } else {
        s
    }
}

/// The presentation timestamp issued for a tick that observed `elapsed_ms`
/// of wall time: the elapsed time itself, unless an earlier sample already
/// carried a timestamp at least as large — then one past it, so that the
/// sequence handed to the encoder strictly increases.
pub open spec fn next_pts_value(last: Option<u64>, elapsed_ms: u64) -> int {
    match last {
        None => elapsed_ms as int,
        Some(p) => if elapsed_ms > p {
            elapsed_ms as int
        } else {
            p + 1
        },
    }
}

/// The plane plan in use, remembered with the dimensions it was computed
/// for so a resize is noticed on the next tick.
#[derive(Clone, Copy, PartialEq, Eq, Structural, Debug)]
pub struct CachedPlan {
    pub dims: Dimensions,
    pub plan: PlanePlan,
}

/// A converted frame reduced to one contiguous buffer, with its
/// presentation timestamp and nominal duration, both in milliseconds.
pub struct TimestampedSample {
    pub data: Vec<u8>,
    pub pts_ms: u64,
    pub duration_ms: u64,
}

/// The pipeline driver.
pub struct Driver {
    pub state: DriverState,
    pub stop_reason: Option<StopReason>,
    pub plan: Option<CachedPlan>,
    pub last_pts: Option<u64>,
    pub tick_ms: u64,
}

impl Driver {
    /// The driver's invariant: a stop reason exists exactly in the terminal
    /// state, and any cached plane plan matches the dimensions it was
    /// computed for.
    pub open spec fn wf(self) -> bool {
        &&& self.state is Stopped <==> self.stop_reason is Some
        &&& match self.plan {
            Some(c) => c.plan.matches(c.dims),
            None => true,
        }
    }

    /// The timestamp counter has room to advance.
    pub open spec fn pts_headroom(self) -> bool {
        match self.last_pts {
            Some(p) => p < u64::MAX,
            None => true,
        }
    }

    /// A fresh, idle driver with the given tick period in milliseconds.
    pub fn new(tick_ms: u64) -> (d: Driver)
        ensures
            d.wf(),
            d.state is Idle,
            d.stop_reason is None,
            d.plan is None,
            d.last_pts is None,
            d.tick_ms == tick_ms,
    {
        Driver {
            state: DriverState::Idle,
            stop_reason: None,
            plan: None,
            last_pts: None,
            tick_ms,
        }
    }

    /// Starts the driver: from idle it waits for the session to connect;
    /// in any other state starting again changes nothing.
    pub fn start(&mut self)
        requires
            old(self).wf(),
        ensures
            final(self).wf(),
            final(self).state == state_after_start(old(self).state),
            final(self).stop_reason == old(self).stop_reason,
            final(self).plan == old(self).plan,
            final(self).last_pts == old(self).last_pts,
            final(self).tick_ms == old(self).tick_ms,
    {
        if matches!(self.state, DriverState::Idle) {
            self.state = DriverState::WaitingForConnect;
        }
    }

    /// The session connected: a one-time gate into the running state.
    /// Further connected events — and one arriving before the driver
    /// started or after it stopped — change nothing.
    pub fn on_connected(&mut self)
        requires
            old(self).wf(),
        ensures
            final(self).wf(),
            final(self).state == state_after_connected(old(self).state),
            final(self).stop_reason == old(self).stop_reason,
            final(self).plan == old(self).plan,
            final(self).last_pts == old(self).last_pts,
            final(self).tick_ms == old(self).tick_ms,
    {
        if matches!(self.state, DriverState::WaitingForConnect) {
            self.state = DriverState::Running;
        }
    }

    /// Stops the driver with the given reason. The stopped state is
    /// terminal: a driver that already stopped keeps its first reason.
    pub fn stop(&mut self, reason: StopReason)
        requires
            old(self).wf(),
        ensures
            final(self).wf(),
            final(self).state is Stopped,
            final(self).stop_reason == if old(self).state is Stopped {
                old(self).stop_reason
            } else {
                (Some(reason))
            },
            final(self).plan == old(self).plan,
            final(self).last_pts == old(self).last_pts,
            final(self).tick_ms == old(self).tick_ms,
    {
        if !matches!(self.state, DriverState::Stopped) {
            self.state = DriverState::Stopped;
            self.stop_reason = Some(reason);
        }
    }

    /// A per-tick stage failed: fatal, with the stage's own stop reason.
    /// None is retried — the input that caused the failure will not change
    /// between ticks.
    pub fn stage_failed(&mut self, stage: PipelineStage)
        requires
            old(self).wf(),
        ensures
            final(self).wf(),
            final(self).state is Stopped,
            final(self).stop_reason == if old(self).state is Stopped {
                old(self).stop_reason
            } else {
                (Some(stage_reason(stage)))
            },
            final(self).plan == old(self).plan,
            final(self).last_pts == old(self).last_pts,
            final(self).tick_ms == old(self).tick_ms,
    {
        let reason = match stage {
            PipelineStage::Capture => StopReason::CaptureFailed,
            PipelineStage::Convert => StopReason::ConvertFailed,
            PipelineStage::Encode => StopReason::EncodeFailed,
            PipelineStage::Send => StopReason::TransportFailed,
        };
        self.stop(reason);
    }

    /// Whether the per-tick loop should pull another frame. A stop signal
    /// observed while waiting between ticks makes this false before the
    /// next capture begins.
    pub fn should_continue(&self) -> (b: bool)
        ensures
            b == (self.state is Running),
    {
        matches!(self.state, DriverState::Running)
    }

    /// Begins a tick by observing the frame source's current dimensions:
    /// the plane plan in use afterwards is exactly the plan for those
    /// dimensions — recomputed if they changed since the last tick, reused
    /// if not — never a stale one.
    pub fn begin_tick(&mut self, dims: Dimensions) -> (p: PlanePlan)
        requires
            old(self).wf(),
            old(self).state is Running,
            dims.width * dims.height <= usize::MAX,
        ensures
            final(self).wf(),
            p.matches(dims),
            final(self).plan == Some(CachedPlan { dims, plan: p }),
            final(self).state == old(self).state,
            final(self).stop_reason == old(self).stop_reason,
            final(self).last_pts == old(self).last_pts,
            final(self).tick_ms == old(self).tick_ms,
    {
        match self.plan {
            Some(c) => {
                if c.dims == dims {
                    return c.plan;
                }
            },
            None => {},
        }
        let p = compute_plan(dims);
        self.plan = Some(CachedPlan { dims, plan: p });
        p
    }

    /// Issues the presentation timestamp for the tick that observed
    /// `elapsed_ms` of wall time since the running state began. The
    /// timestamps issued over the driver's life strictly increase, which
    /// the encoder's ordering contract demands.
    pub fn next_pts(&mut self, elapsed_ms: u64) -> (pts: u64)
        requires
            old(self).wf(),
            old(self).state is Running,
            old(self).pts_headroom(),
        ensures
            final(self).wf(),
            pts == next_pts_value(old(self).last_pts, elapsed_ms),
            (match old(self).last_pts {
                Some(p) => pts > p,
                None => true,
            }),
            final(self).last_pts == Some(pts),
            final(self).state == old(self).state,
            final(self).stop_reason == old(self).stop_reason,
            final(self).plan == old(self).plan,
            final(self).tick_ms == old(self).tick_ms,
    {
        let pts = match self.last_pts {
            None => elapsed_ms,
            Some(p) => if elapsed_ms > p {
                elapsed_ms
            } else {
                p + 1
            },
        };
        self.last_pts = Some(pts);
        pts
    }

    /// One running tick's computation after capture: observe the frame's
    /// dimensions (replanning on a resize), convert it, and stamp it into a
    /// sample for the encoder. A conversion failure is fatal: the driver
    /// stops with the conversion stop reason and yields no sample.
    pub fn process_frame(&mut self, frame: &RawFrame, elapsed_ms: u64) -> (r: Option<
        TimestampedSample,
    >)
        requires
            old(self).wf(),
            old(self).state is Running,
            old(self).pts_headroom(),
            frame.dims.width * frame.dims.height <= usize::MAX,
        ensures
            final(self).wf(),
            final(self).tick_ms == old(self).tick_ms,
            (match final(self).plan {
                Some(c) => c.dims == frame.dims && c.plan.matches(frame.dims),
                None => false,
            }),
            match r {
                Some(sample) => {
                    &&& frame.format_supported()
                    &&& frame.data_sufficient()
                    &&& final(self).state is Running
                    &&& final(self).stop_reason is None
                    &&& sample.pts_ms == next_pts_value(old(self).last_pts, elapsed_ms)
                    &&& (match old(self).last_pts {
                        Some(p) => sample.pts_ms > p,
                        None => true,
                    })
                    &&& final(self).last_pts == Some(sample.pts_ms)
                    &&& sample.duration_ms == old(self).tick_ms
                    &&& sample.data@.len() == luma_size(
                        frame.dims.width as int,
                        frame.dims.height as int,
                    ) + 2 * chroma_size(frame.dims.width as int, frame.dims.height as int)
                },
                None => {
                    &&& !(frame.format_supported() && frame.data_sufficient())
                    &&& final(self).state is Stopped
                    &&& final(self).stop_reason == Some(StopReason::ConvertFailed)
                    &&& final(self).last_pts == old(self).last_pts
                },
            },
    {
        let _plan = self.begin_tick(frame.dims);
        match convert(frame) {
            Ok(cf) => {
                let pts = self.next_pts(elapsed_ms);
                let data = cf.into_contiguous();
                Some(TimestampedSample { data, pts_ms: pts, duration_ms: self.tick_ms })
            },
            Err(_) => {
                self.stop(StopReason::ConvertFailed);
                None
            },
        }
    }
}

/// Law: presentation timestamps strictly increase — whatever wall time a
/// tick observes, the timestamp issued after a sample stamped `p` is
/// greater than `p`, so the driver never hands the encoder a repeated or
/// decreasing timestamp.
pub proof fn lemma_pts_strictly_increasing(p: u64, elapsed_ms: u64)
    ensures
        next_pts_value(Some(p), elapsed_ms) > p,
{
}

/// Law: the connected event is a one-time gate — delivering it twice
/// leaves exactly the state one delivery reaches, and from the waiting
/// state that is the running state, so a repeated event never double-starts
/// the loop.
pub proof fn lemma_connected_one_time_gate(s: DriverState)
    ensures
        state_after_connected(state_after_connected(s)) == state_after_connected(s),
        s is WaitingForConnect ==> state_after_connected(s) is Running,
{
}

/// Law: the stopped state is terminal — neither starting the driver again
/// nor a late connected event leaves it.
pub proof fn lemma_stopped_is_terminal()
    ensures
        state_after_start(DriverState::Stopped) == DriverState::Stopped,
        state_after_connected(DriverState::Stopped) == DriverState::Stopped,
{
}

} // verus!
