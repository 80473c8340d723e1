//! The orchestration state machine.
//!
//! The recording advances through four phases, in order and without cycles:
//! everything is constructed while idle; the capture loop then polls the
//! display once per frame period, converting, encoding and muxing what it
//! gets; when the stop signal is observed, the duration elapses or capture
//! fails, the encoder is drained; finally the container is finalized.
//!
//! The loop itself performs sleeping and polling — outside work — so it runs
//! at the unverified edge; every decision it takes comes from here: what a
//! tick does with each poll outcome, when the capture phase ends, and how
//! long to sleep so that ticks are one frame period apart.

use vstd::prelude::*;

verus! {

/// The phases of a recording, linear and terminal.
#[derive(Clone, Copy, Debug, PartialEq, Eq, Structural)]
pub enum Phase {
    Idle,
    Capturing,
    Draining,
    Closed,
}

/// A non-blocking capture poll's outcome as the coordinator sees it:
/// a frame, nothing yet (benign, retried next tick), or a fatal error.
#[derive(Clone, Copy, Debug, PartialEq, Eq, Structural)]
pub enum Poll {
    Frame,
    NotReady,
    Fatal,
}

/// What the capture loop must do after a tick.
#[derive(Clone, Copy, Debug, PartialEq, Eq, Structural)]
pub enum TickStep {
    /// Convert the polled frame, encode it at this video timestamp
    /// (milliseconds since the start), and mux every packet that comes out.
    Encode { pts_ms: u64 },
    /// No frame this tick; just sleep out the rest of the period.
    Skip,
    /// The capture phase is over: drain the encoder, then finalize.
    Drain,
}

/// Drives the video timing loop: owns the phase, the frame period and the
/// optional duration limit, and decides each tick.
pub struct Coordinator {
    phase: Phase,
    frame_period_ns: u64,
    duration_ms: Option<u64>,
    last_pts_ms: u64,
}

impl Coordinator {
    pub closed spec fn phase_spec(self) -> Phase {
        self.phase
    }

    /// The current phase.
    pub fn phase(&self) -> (p: Phase)
        ensures
            p == self.phase_spec(),
    {
        self.phase
    }

    /// The target distance between ticks: `1 s / fps`, in nanoseconds.
    pub closed spec fn frame_period_spec(self) -> u64 {
        self.frame_period_ns
    }

    /// The recording length limit in milliseconds, if one was given.
    pub closed spec fn duration_ms_spec(self) -> Option<u64> {
        self.duration_ms
    }

    /// The timestamp of the last encoded frame.
    pub closed spec fn last_pts_spec(self) -> u64 {
        self.last_pts_ms
    }

    /// Whether the elapsed time has passed the duration limit.
    pub open spec fn duration_exceeded(self, elapsed_ms: u64) -> bool {
        match self.duration_ms_spec() {
            Some(limit) => elapsed_ms > limit,
            None => false,
        }
    }

    /// Sets up a recording: the frame period is one second divided by the
    /// frame rate, and an optional duration limit is kept in milliseconds.
    /// The coordinator starts idle, while the collaborators are constructed.
    pub fn new(fps: u64, duration_secs: Option<u64>) -> (r: Coordinator)
        requires
            1 <= fps,
            duration_secs is Some ==> duration_secs.unwrap() <= u64::MAX / 1000,
        ensures
            r.phase_spec() == Phase::Idle,
            r.frame_period_spec() == 1_000_000_000u64 / fps,
            duration_secs is Some ==> r.duration_ms_spec() == Some(
                (duration_secs.unwrap() * 1000) as u64,
            ),
            duration_secs is None ==> r.duration_ms_spec() is None,
            r.last_pts_spec() == 0,
    {
        let duration_ms = match duration_secs {
            Some(s) => Some(s * 1000),
            None => None,
        };
        Coordinator {
            phase: Phase::Idle,
            frame_period_ns: 1_000_000_000 / fps,
            duration_ms,
            last_pts_ms: 0,
        }
    }

    /// Everything is constructed; the capture loop begins.
    pub fn start(&mut self)
        requires
            old(self).phase_spec() == Phase::Idle,
        ensures
            final(self).phase_spec() == Phase::Capturing,
            final(self).frame_period_spec() == old(self).frame_period_spec(),
            final(self).duration_ms_spec() == old(self).duration_ms_spec(),
            final(self).last_pts_spec() == old(self).last_pts_spec(),
    {
        self.phase = Phase::Capturing;
    }

    /// One tick of the capture loop, at `elapsed_ms` since the start and
    /// with the stop flag as read at the top of the tick.
    ///
    /// A tick that observes the stop signal leaves the capture phase at
    /// once, before any further polling — and ticks are at most one frame
    /// period apart (see `sleep_ns`), which bounds the reaction time. The
    /// duration limit and a fatal capture error end the phase the same way;
    /// "not ready" is benign and merely skips; a frame is encoded at the
    /// elapsed time, so video timestamps never decrease.
    pub fn tick(&mut self, elapsed_ms: u64, stop: bool, poll: Poll) -> (step: TickStep)
        requires
            old(self).phase_spec() == Phase::Capturing,
            elapsed_ms >= old(self).last_pts_spec(),
        ensures
            final(self).frame_period_spec() == old(self).frame_period_spec(),
            final(self).duration_ms_spec() == old(self).duration_ms_spec(),
            stop ==> step == TickStep::Drain && final(self).phase_spec() == Phase::Draining,
            !stop && old(self).duration_exceeded(elapsed_ms) ==> step == TickStep::Drain && final(self).phase_spec() == Phase::Draining,
            !stop && !old(self).duration_exceeded(elapsed_ms) && poll == Poll::Fatal ==> step
                == TickStep::Drain && final(self).phase_spec() == Phase::Draining,
            !stop && !old(self).duration_exceeded(elapsed_ms) && poll == Poll::NotReady ==> step
                == TickStep::Skip && final(self).phase_spec() == Phase::Capturing && final(self).last_pts_spec() == old(self).last_pts_spec(),
            !stop && !old(self).duration_exceeded(elapsed_ms) && poll == Poll::Frame ==> step
                == (TickStep::Encode { pts_ms: elapsed_ms }) && final(self).phase_spec()
                == Phase::Capturing && final(self).last_pts_spec() == elapsed_ms,
            final(self).phase_spec() == Phase::Capturing || final(self).phase_spec()
                == Phase::Draining,
            final(self).last_pts_spec() >= old(self).last_pts_spec(),
    {
        if stop {
            self.phase = Phase::Draining;
            return TickStep::Drain;
        }
        let exceeded = match self.duration_ms {
            Some(limit) => elapsed_ms > limit,
            None => false,
        };
        if exceeded {
            self.phase = Phase::Draining;
            return TickStep::Drain;
        }
        match poll {
            Poll::Fatal => {
                self.phase = Phase::Draining;
                TickStep::Drain
            },
            Poll::NotReady => TickStep::Skip,
            Poll::Frame => {
                self.last_pts_ms = elapsed_ms;
                TickStep::Encode { pts_ms: elapsed_ms }
            },
        }
    }

    /// How long to sleep after a tick that took `tick_elapsed_ns`: the rest
    /// of the frame period, and nothing if the tick overran it (timing then
    /// drifts under overload; it is not corrected). The sleep never exceeds
    /// one frame period, so the stop flag is re-read at least that often.
    pub fn sleep_ns(&self, tick_elapsed_ns: u64) -> (r: u64)
        ensures
            r == if tick_elapsed_ns < self.frame_period_spec() {
                (self.frame_period_spec() - tick_elapsed_ns) as int
            } else {
                0
            },
            r <= self.frame_period_spec(),
    {
        if tick_elapsed_ns < self.frame_period_ns {
            self.frame_period_ns - tick_elapsed_ns
        } else {
            0
        }
    }

    /// The encoder has been drained and every remaining packet muxed; all
    /// that is left is to finalize the container.
    pub fn drained(&mut self)
        requires
            old(self).phase_spec() == Phase::Draining,
        ensures
            final(self).phase_spec() == Phase::Closed,
            final(self).frame_period_spec() == old(self).frame_period_spec(),
            final(self).duration_ms_spec() == old(self).duration_ms_spec(),
    {
        self.phase = Phase::Closed;
    }
}

} // verus!
