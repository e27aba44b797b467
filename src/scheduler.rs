//! The frame scheduler: feeds wall-clock time into the breathing model and
//! decides when a frame is drawn.
//!
//! The event loop that owns the window reports what happened as an `Event`
//! and carries out the `Command` that comes back. Timestamps are nanoseconds
//! on a monotonic clock.

use vstd::prelude::*;
use crate::breathe::{lemma_advanced_compose, lemma_advanced_wf, BreatheState};

verus! {

/// Shortest time between two drawn frames, in nanoseconds: 1/60 s, rounded up.
pub const FRAME: u64 = 16_666_667;

/// What the event loop reports.
#[derive(Clone, Copy, Debug, PartialEq, Eq, Structural)]
pub enum Event {
    /// The loop has handled its pending events, at the given time.
    Idle(u64),
    /// The window asks to be redrawn, at the given time.
    Redraw(u64),
    /// The window was resized.
    Resized,
    /// The window was asked to close.
    CloseRequested,
}

/// What the event loop is to do in answer.
#[derive(Clone, Copy, Debug, PartialEq, Eq, Structural)]
pub enum Command {
    /// Ask the window for a redraw.
    RequestRedraw,
    /// Draw one frame: the disc at this scale (millionths) and hue
    /// (millionths of a degree).
    Draw { scale: u64, hue: u64 },
    /// Draw nothing: the last frame is too recent.
    Skip,
    /// Leave the loop.
    Exit,
}

/// The time of an event, where it carries one.
pub open spec fn event_time(e: Event) -> Option<u64> {
    match e {
        Event::Idle(t) => Some(t),
        Event::Redraw(t) => Some(t),
        _ => None,
    }
}

/// The clock never runs backwards over `evs`.
pub open spec fn clock_monotone(evs: Seq<Event>) -> bool {
    forall|i: int, j: int|
        0 <= i < j < evs.len() && (#[trigger] event_time(evs[i])).is_some()
            && (#[trigger] event_time(evs[j])).is_some() ==> event_time(evs[i]).unwrap()
            <= event_time(evs[j]).unwrap()
}

/// The model with the two clocks that drive it.
#[derive(Clone, Copy, Debug)]
pub struct Scheduler {
    /// The breathing model.
    pub state: BreatheState,
    /// When time was last fed into the model.
    pub last_update: u64,
    /// When a frame was last drawn.
    pub last_render: u64,
    /// A resize asked for a frame whatever the cadence.
    pub forced: bool,
}

impl Scheduler {
    pub open spec fn wf(self) -> bool {
        self.state.wf()
    }

    /// A frame may be drawn at `now`.
    pub open spec fn due(self, now: int) -> bool {
        self.forced || now >= self.last_render + FRAME
    }

    /// The scheduler after handling `e`.
    pub open spec fn after(self, e: Event) -> Scheduler {
        match e {
            Event::Idle(now) => if now >= self.last_update {
                Scheduler {
                    state: self.state.advanced(now - self.last_update),
                    last_update: now,
                    last_render: self.last_render,
                    forced: self.forced,
                }
            } else {
                self
            },
            Event::Redraw(now) => if self.due(now as int) {
                Scheduler {
                    state: self.state,
                    last_update: self.last_update,
                    last_render: now,
                    forced: false,
                }
            } else {
                self
            },
            Event::Resized => Scheduler {
                state: self.state,
                last_update: self.last_update,
                last_render: self.last_render,
                forced: true,
            },
            Event::CloseRequested => self,
        }
    }

    /// The command that answers `e`.
    pub open spec fn command(self, e: Event) -> Command {
        match e {
            Event::Idle(_) => Command::RequestRedraw,
            Event::Redraw(now) => if self.due(now as int) {
                Command::Draw {
                    scale: self.state.scale_spec() as u64,
                    hue: self.state.hue_spec() as u64,
                }
            } else {
                Command::Skip
            },
            Event::Resized => Command::RequestRedraw,
            Event::CloseRequested => Command::Exit,
        }
    }

    /// Both clocks at `start`, the model at the start of a breath.
    pub fn new(start: u64) -> (r: Scheduler)
        ensures
            r.wf(),
            r.state == BreatheState::In(0),
            r.last_update == start,
            r.last_render == start,
            !r.forced,
    {
        Scheduler { state: BreatheState::new(), last_update: start, last_render: start, forced: false }
    }

    /// When the loop should wake up next: one frame after the last drawn
    /// frame, or the end of the clock's range.
    pub fn next_wake(&self) -> (r: u64)
        ensures
            r == if self.last_render + FRAME <= u64::MAX {
                self.last_render + FRAME
            } else {
                u64::MAX as int
            },
    {
        if self.last_render <= u64::MAX - FRAME {
            self.last_render + FRAME
        } else {
            u64::MAX
        }
    }

    /// Handles one event.
    ///
    /// `Idle(now)` feeds the time since the last update into the model and
    /// asks for a redraw; a clock that went backwards feeds nothing. A
    /// `Redraw(now)` draws only when a frame interval has passed since the
    /// last drawn frame, or a resize asked for one. `Resized` asks for a
    /// redraw at once, `CloseRequested` ends the loop.
    pub fn handle(&mut self, e: Event) -> (c: Command)
        requires
            old(self).wf(),
        ensures
            final(self).wf(),
            *final(self) == old(self).after(e),
            c == old(self).command(e),
    {
        match e {
            Event::Idle(now) => {
                if now >= self.last_update {
                    let dt = now - self.last_update;
                    self.state.advance(dt);
                    self.last_update = now;
                }
                Command::RequestRedraw
            },
            Event::Redraw(now) => {
                let due = self.forced || (now >= self.last_render && now - self.last_render
                    >= FRAME);
                if due {
                    self.last_render = now;
                    self.forced = false;
                    Command::Draw { scale: self.state.scale(), hue: self.state.hue() }
                } else {
                    Command::Skip
                }
            },
            Event::Resized => {
                self.forced = true;
                Command::RequestRedraw
            },
            Event::CloseRequested => Command::Exit,
        }
    }
}

/// The scheduler after handling each event of `evs` in turn.
pub open spec fn run(s: Scheduler, evs: Seq<Event>) -> Scheduler
    decreases evs.len(),
{
    if evs.len() == 0 {
        s
    } else {
        run(s, evs.drop_last()).after(evs.last())
    }
}

/// Handling the event at `k` of `evs`, after those before it, draws a frame.
pub open spec fn draws_at(s: Scheduler, evs: Seq<Event>, k: int) -> bool {
    run(s, evs.take(k)).command(evs[k]) is Draw
}

proof fn lemma_run_step(s: Scheduler, evs: Seq<Event>, k: int)
    requires
        0 <= k < evs.len(),
    ensures
        run(s, evs.take(k + 1)) == run(s, evs.take(k)).after(evs[k]),
{
    assert(evs.take(k + 1).drop_last() =~= evs.take(k));
}

/// Whatever the events, the model has advanced by exactly the time that
/// passed between the first and the last update: the animation's speed does
/// not depend on how often the loop wakes up.
pub proof fn lemma_time_accounted(s: Scheduler, evs: Seq<Event>)
    requires
        s.wf(),
    ensures
        run(s, evs).wf(),
        run(s, evs).last_update >= s.last_update,
        run(s, evs).state == s.state.advanced(run(s, evs).last_update - s.last_update),
    decreases evs.len(),
{
    if evs.len() == 0 {
        lemma_advanced_wf(s.state, 0);
        crate::breathe::lemma_position_round_trip(s.state, 0);
        vstd::arithmetic::div_mod::lemma_small_mod(
            s.state.position() as nat,
            crate::breathe::CYCLE as nat,
        );
    } else {
        let prev = run(s, evs.drop_last());
        lemma_time_accounted(s, evs.drop_last());
        if let Event::Idle(now) = evs.last() {
            if now >= prev.last_update {
                lemma_advanced_compose(
                    s.state,
                    prev.last_update - s.last_update,
                    now - prev.last_update,
                );
                lemma_advanced_wf(s.state, now - s.last_update);
            }
        }
    }
}

/// After a frame drawn at `i`, and with no resize since, the scheduler is not
/// forced and its last frame is no earlier than the one drawn at `i`.
proof fn lemma_since_draw(s: Scheduler, evs: Seq<Event>, i: int, k: int)
    requires
        0 <= i < k <= evs.len(),
        clock_monotone(evs),
        forall|m: int| i < m < k ==> evs[m] != Event::Resized,
        draws_at(s, evs, i),
    ensures
        event_time(evs[i]) is Some,
        !run(s, evs.take(k)).forced,
        run(s, evs.take(k)).last_render >= event_time(evs[i]).unwrap(),
    decreases k - i,
{
    lemma_run_step(s, evs, k - 1);
    if k == i + 1 {
    } else {
        lemma_since_draw(s, evs, i, k - 1);
        if let Event::Redraw(t) = evs[k - 1] {
            assert(event_time(evs[k - 1]) == Some(t));
        }
    }
}

/// Frames keep their cadence: while the clock runs forward and the window is
/// not resized, two drawn frames are at least one frame interval apart.
pub proof fn lemma_draw_cadence(s: Scheduler, evs: Seq<Event>, i: int, j: int)
    requires
        0 <= i < j < evs.len(),
        clock_monotone(evs),
        forall|k: int| i < k < j ==> evs[k] != Event::Resized,
        draws_at(s, evs, i),
        draws_at(s, evs, j),
    ensures
        event_time(evs[i]) is Some,
        event_time(evs[j]) is Some,
        event_time(evs[j]).unwrap() >= event_time(evs[i]).unwrap() + FRAME,
{
    lemma_since_draw(s, evs, i, j);
    if let Event::Redraw(t) = evs[j] {
        assert(event_time(evs[j]) == Some(t));
    }
}

} // verus!
