use vstd::prelude::*;

use crate::sim::{SeqSchedule, Simulation};

verus! {

/// Playback speed selected by the `pause` command: no ticks per frame.
pub const PAUSED_SPEED: u64 = 0;

/// Playback speed selected by the `play` command: one tick per frame.
pub const PLAY_SPEED: u64 = 1;

/// Playback speed selected by the `fast` command.
pub const FAST_SPEED: u64 = 100;

/// Playback speed selected by the `max` command.
pub const MAX_SPEED: u64 = 10000;

/// A persisted, ordered log of recorded simulation ticks. It is created by
/// the recording side, never mutated after load, and read here only through
/// its highest recorded tick index: the driver decides everything from that
/// bound, while the entries themselves feed the simulation engine.
pub struct Replay {
    /// The highest tick index present in the log.
    pub last_tick_recorded: u64,
}

/// Whether a replay is still being re-executed or has reached the end of
/// the recorded log.
#[derive(PartialEq, Eq, Structural, Clone, Copy, Debug)]
pub enum ReplayState {
    /// Recorded ticks remain to be re-executed.
    Loading,
    /// The driver has reached `last_tick_recorded`; it must not advance
    /// further.
    Exhausted,
}

/// Drives the re-execution of a recorded simulation: owns the tick pointer
/// into the log, a target playback speed, and a one-shot "advance by N"
/// request that works even while playback is paused.
pub struct ReplayDriver {
    /// The log being re-executed.
    pub replay: Replay,
    /// The next frame advances this many ticks, unless a step request is
    /// pending; 0 pauses playback.
    pub speed: u64,
    /// How many ticks have been re-executed; never exceeds
    /// `replay.last_tick_recorded`.
    pub current_tick: u64,
    /// A one-shot request to advance this many ticks on the next frame,
    /// whatever `speed` says; 0 means no request is pending.
    pub advance_n_ticks: u64,
}

impl ReplayDriver {
    /// The tick pointer stays within the recorded log.
    pub open spec fn wf(self) -> bool {
        self.current_tick <= self.replay.last_tick_recorded
    }

    /// How many recorded ticks are left to re-execute.
    pub open spec fn spec_remaining(self) -> int {
        self.replay.last_tick_recorded - self.current_tick
    }

    /// The driver is done once the tick pointer reaches the end of the log.
    pub open spec fn spec_exhausted(self) -> bool {
        self.current_tick == self.replay.last_tick_recorded
    }

    /// How many ticks the next frame asks for: a pending step request wins
    /// over the playback speed.
    pub open spec fn spec_frame_request(self) -> int {
        if self.advance_n_ticks > 0 {
            self.advance_n_ticks as int
        } else {
            self.speed as int
        }
    }

    /// How many ticks the next frame actually advances: the request,
    /// clamped to what the log still holds.
    pub open spec fn spec_frame_ticks(self) -> int {
        if self.spec_frame_request() <= self.spec_remaining() {
            self.spec_frame_request()
        } else {
            self.spec_remaining()
        }
    }

    /// The driver state after one frame: the tick pointer has moved by
    /// `spec_frame_ticks`, any step request is spent, and the playback
    /// speed is kept for the frames that follow.
    pub open spec fn spec_after_frame(self) -> ReplayDriver {
        ReplayDriver {
            replay: self.replay,
            speed: self.speed,
            current_tick: (self.current_tick + self.spec_frame_ticks()) as u64,
            advance_n_ticks: 0,
        }
    }

    /// Progress through the log as a fraction: numerator and denominator,
    /// in that order. A zero-length log counts as immediately complete, so
    /// the fraction is 1/1 rather than 0/0.
    pub open spec fn spec_progress(self) -> (u64, u64) {
        if self.replay.last_tick_recorded == 0 {
            (1u64, 1u64)
        } else {
            (self.current_tick, self.replay.last_tick_recorded)
        }
    }

    /// Bind a fresh driver to a recorded log. The caller pairs it with a
    /// fresh simulation positioned at tick 0; playback starts at normal
    /// speed with no step request pending.
    pub fn new(replay: Replay) -> (r: ReplayDriver)
        ensures
            r.replay == replay,
            r.current_tick == 0,
            r.speed == PLAY_SPEED,
            r.advance_n_ticks == 0,
            r.wf(),
    {
        ReplayDriver { replay, speed: PLAY_SPEED, current_tick: 0, advance_n_ticks: 0 }
    }

    /// Re-execute exactly one recorded tick, moving the simulation and the
    /// tick pointer together; at the end of the log this is a no-op rather
    /// than a read past what was recorded.
    pub fn advance_tick(&mut self, sim: &mut Simulation, schedule: &mut SeqSchedule)
        requires
            old(self).wf(),
            old(sim).wf(),
            old(sim).spec_tick() == old(self).current_tick,
        ensures
            final(self).replay == old(self).replay,
            final(self).speed == old(self).speed,
            final(self).advance_n_ticks == old(self).advance_n_ticks,
            final(self).current_tick == if old(self).spec_exhausted() {
                old(self).current_tick as int
            } else {
                old(self).current_tick + 1
            },
            final(self).wf(),
            final(sim).wf(),
            final(sim).spec_tick() == final(self).current_tick,
            final(sim).spec_hashes() == old(sim).spec_hashes(),
    {
        if self.current_tick < self.replay.last_tick_recorded {
            sim.advance_one_tick(schedule);
            self.current_tick = self.current_tick + 1;
        }
    }

    /// Run one frame of playback: a pending step request advances exactly
    /// its count and is then spent, whatever the speed; otherwise `speed`
    /// ticks run. Either way the driver stops at the end of the log.
    pub fn advance_frame(&mut self, sim: &mut Simulation, schedule: &mut SeqSchedule)
        requires
            old(self).wf(),
            old(sim).wf(),
            old(sim).spec_tick() == old(self).current_tick,
        ensures
            *final(self) == old(self).spec_after_frame(),
            final(self).wf(),
            final(sim).wf(),
            final(sim).spec_tick() == final(self).current_tick,
            final(sim).spec_hashes() == old(sim).spec_hashes(),
    {
        let goal: u64 = if self.advance_n_ticks > 0 {
            self.advance_n_ticks
        } else {
            self.speed
        };
        self.advance_n_ticks = 0;
        let mut done: u64 = 0;
        while done < goal && self.current_tick < self.replay.last_tick_recorded
            invariant
                done <= goal,
                self.replay == old(self).replay,
                self.speed == old(self).speed,
                self.advance_n_ticks == 0,
                self.wf(),
                sim.wf(),
                sim.spec_tick() == self.current_tick,
                sim.spec_hashes() == old(sim).spec_hashes(),
                self.current_tick == old(self).current_tick + done,
                goal == old(self).spec_frame_request(),
                done <= old(self).spec_frame_ticks(),
            decreases goal - done,
        {
            sim.advance_one_tick(schedule);
            self.current_tick = self.current_tick + 1;
            done = done + 1;
        }
    }

    /// The playback state the UI reports: still loading, or exhausted.
    pub fn state(&self) -> (r: ReplayState)
        ensures
            r == (if self.spec_exhausted() {
                ReplayState::Exhausted
            } else {
                ReplayState::Loading
            }),
    {
        if self.current_tick == self.replay.last_tick_recorded {
            ReplayState::Exhausted
        } else {
            ReplayState::Loading
        }
    }

    /// Whether the whole recorded log has been re-executed.
    pub fn is_exhausted(&self) -> (r: bool)
        ensures
            r == self.spec_exhausted(),
    {
        self.current_tick == self.replay.last_tick_recorded
    }

    /// Progress through the log for a progress indicator, as the pair
    /// (ticks done, ticks recorded); a zero-length log reports 1/1, so the
    /// fraction is always well defined and within [0, 1].
    pub fn progress(&self) -> (r: (u64, u64))
        requires
            self.wf(),
        ensures
            r == self.spec_progress(),
            r.1 >= 1,
            r.0 <= r.1,
    {
        if self.replay.last_tick_recorded == 0 {
            (1, 1)
        } else {
            (self.current_tick, self.replay.last_tick_recorded)
        }
    }

    /// Set the playback speed for the frames to come; 0 pauses playback.
    pub fn set_speed(&mut self, speed: u64)
        ensures
            *final(self) == (ReplayDriver { speed, ..*old(self) }),
    {
        self.speed = speed;
    }

    /// Halt playback until a step request or a new speed arrives.
    pub fn pause(&mut self)
        ensures
            *final(self) == (ReplayDriver { speed: PAUSED_SPEED, ..*old(self) }),
    {
        self.set_speed(PAUSED_SPEED);
    }

    /// Play back at the recorded rate, one tick per frame.
    pub fn play(&mut self)
        ensures
            *final(self) == (ReplayDriver { speed: PLAY_SPEED, ..*old(self) }),
    {
        self.set_speed(PLAY_SPEED);
    }

    /// Fast-forward playback.
    pub fn fast(&mut self)
        ensures
            *final(self) == (ReplayDriver { speed: FAST_SPEED, ..*old(self) }),
    {
        self.set_speed(FAST_SPEED);
    }

    /// Fast-forward playback as fast as the policy allows.
    pub fn max_speed(&mut self)
        ensures
            *final(self) == (ReplayDriver { speed: MAX_SPEED, ..*old(self) }),
    {
        self.set_speed(MAX_SPEED);
    }

    /// Request a one-shot advance of exactly `n` ticks on the next frame,
    /// leaving the playback speed as it is, so that stepping works even
    /// while paused and normal playback resumes afterwards.
    pub fn step(&mut self, n: u64)
        requires
            n >= 1,
        ensures
            *final(self) == (ReplayDriver { advance_n_ticks: n, ..*old(self) }),
    {
        self.advance_n_ticks = n;
    }
}

/// Load a recorded log for playback: bind a fresh simulation and a fresh
/// driver to it, then re-execute the first recorded tick at once, so that
/// state derived from it (such as the world bounds) exists before the first
/// frame is rendered. A zero-length log is complete as loaded.
pub fn begin_replay(replay: Replay) -> (r: (Simulation, ReplayDriver))
    ensures
        r.1.replay == replay,
        r.1.current_tick == if replay.last_tick_recorded == 0 { 0int } else { 1int },
        r.1.speed == PLAY_SPEED,
        r.1.advance_n_ticks == 0,
        r.1.wf(),
        r.0.wf(),
        r.0.spec_tick() == r.1.current_tick,
{
    let mut sim = Simulation::new();
    let mut driver = ReplayDriver::new(replay);
    let mut schedule = SeqSchedule::default();
    driver.advance_tick(&mut sim, &mut schedule);
    (sim, driver)
}

/// The driver after `n` successive frames of playback.
pub open spec fn spec_after_frames(d: ReplayDriver, n: nat) -> ReplayDriver
    decreases n,
{
    if n == 0 {
        d
    } else {
        spec_after_frames(d, (n - 1) as nat).spec_after_frame()
    }
}

/// Law: one frame never moves the tick pointer backwards, and never moves
/// it past the end of the recorded log.
pub proof fn lemma_frame_monotonic_bounded(d: ReplayDriver)
    requires
        d.wf(),
    ensures
        d.spec_after_frame().current_tick >= d.current_tick,
        d.spec_after_frame().wf(),
{
}

/// Law: across any number of successive frames, the tick pointer never
/// decreases and never passes the end of the recorded log.
pub proof fn lemma_frames_monotonic_bounded(d: ReplayDriver, n: nat)
    requires
        d.wf(),
    ensures
        spec_after_frames(d, n).wf(),
        spec_after_frames(d, n).current_tick >= d.current_tick,
        spec_after_frames(d, n).replay == d.replay,
    decreases n,
{
    if n > 0 {
        lemma_frames_monotonic_bounded(d, (n - 1) as nat);
    }
}

/// Law: exhaustion is terminal. A driver that has reached the end of the
/// recorded log never advances again, however many frames run.
pub proof fn lemma_exhausted_is_terminal(d: ReplayDriver, n: nat)
    requires
        d.wf(),
        d.spec_exhausted(),
    ensures
        spec_after_frames(d, n).current_tick == d.current_tick,
        spec_after_frames(d, n).spec_exhausted(),
    decreases n,
{
    if n > 0 {
        lemma_exhausted_is_terminal(d, (n - 1) as nat);
    }
}

/// Law: a zero-length replay is complete the moment it is loaded: any
/// well-formed driver over it is already exhausted and reports progress
/// 1/1.
pub proof fn lemma_empty_replay_complete(d: ReplayDriver)
    requires
        d.wf(),
        d.replay.last_tick_recorded == 0,
    ensures
        d.spec_exhausted(),
        d.spec_progress() == (1u64, 1u64),
{
}

/// Law: a pending step request advances exactly its count — whatever the
/// playback speed — and is then spent, so the frame after it advances at
/// the previously set speed again.
pub proof fn lemma_step_overrides_speed(d: ReplayDriver, n: u64)
    requires
        d.wf(),
        d.advance_n_ticks == n,
        n >= 1,
        n <= d.spec_remaining(),
    ensures
        d.spec_after_frame().current_tick == d.current_tick + n,
        d.spec_after_frame().speed == d.speed,
        d.spec_after_frame().spec_frame_request() == d.speed as int,
{
}

/// Law: with speed 0 and no pending step request, a frame changes nothing,
/// so a paused driver halts indefinitely until a step request or a new
/// speed arrives.
pub proof fn lemma_paused_frame_is_identity(d: ReplayDriver)
    requires
        d.wf(),
        d.speed == 0,
        d.advance_n_ticks == 0,
    ensures
        d.spec_after_frame() == d,
{
}

/// Law: a paused driver with no pending step request is unchanged by any
/// number of frames.
pub proof fn lemma_paused_halts_indefinitely(d: ReplayDriver, n: nat)
    requires
        d.wf(),
        d.speed == 0,
        d.advance_n_ticks == 0,
    ensures
        spec_after_frames(d, n) == d,
    decreases n,
{
    if n > 0 {
        lemma_paused_halts_indefinitely(d, (n - 1) as nat);
        lemma_paused_frame_is_identity(d);
    }
}

} // verus!
