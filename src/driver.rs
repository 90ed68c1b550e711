//! The frame driver: the lifecycle of a running scene and, for each frame,
//! the order in which callbacks run, objects are drawn and triggered audio
//! sources are played. The caller performs each step and reports events.
use crate::clock::{clock_after, whole_seconds, FrameClock};
use vstd::prelude::*;

verus! {

/// Where the engine is in its lifecycle.
#[derive(Clone, Copy, Debug, PartialEq, Eq, Structural)]
pub enum Phase {
    /// Meshes are being uploaded; no callback has run.
    Uninitialized,
    /// Every `on_awake` has been handed out; no frame has run.
    Awake,
    /// Frames are running.
    Running,
    /// A close or destroy signal arrived; the loop must exit.
    Terminated,
}

/// The owner of a callback: the scene's camera or the object at an index of
/// the scene's object list.
#[derive(Clone, Copy, Debug, PartialEq, Eq, Structural)]
pub enum Entity {
    Camera,
    Object(usize),
}

/// One hand-off to an outside collaborator at the end of a frame.
#[derive(Clone, Copy, Debug, PartialEq, Eq, Structural)]
pub enum Submission {
    /// Draw the object at this index with its current model matrix.
    Draw(usize),
    /// Play the audio source at this index once.
    Play(usize),
}

/// A window or loop event, as far as the driver reads it.
#[derive(Clone, Copy, Debug, PartialEq, Eq, Structural)]
pub enum LoopEvent {
    Resized { width: u32, height: u32 },
    CloseRequested,
    Destroyed,
    RedrawRequested,
    ResumeTimeReached,
    Other,
}

/// What the event loop should do after an event.
#[derive(Clone, Copy, Debug, PartialEq, Eq, Structural)]
pub enum Control {
    /// Keep waiting for events.
    Continue,
    /// Run one frame now.
    RunFrame,
    /// Ask the window for a redraw.
    RequestRedraw,
    /// Leave the loop.
    Exit,
}

/// Lifecycle, window size, timing and frame count of a running scene.
#[derive(Clone, Copy, Debug)]
pub struct FrameDriver {
    pub phase: Phase,
    pub window_size: [u32; 2],
    pub clock: FrameClock,
    pub drawn_frames: u64,
}

/// The camera first, then every object in list order.
pub open spec fn callback_order(objects: nat) -> Seq<Entity> {
    seq![Entity::Camera] + Seq::new(objects, |i: int| Entity::Object(i as usize))
}

/// One draw per object, in list order.
pub open spec fn draws(objects: nat) -> Seq<Submission> {
    Seq::new(objects, |i: int| Submission::Draw(i as usize))
}

/// One play per triggered source, in list order.
pub open spec fn plays(triggered: Seq<bool>) -> Seq<Submission>
    decreases triggered.len(),
{
    if triggered.len() == 0 {
        Seq::empty()
    } else {
        let last = triggered.len() - 1;
        plays(triggered.drop_last()) + if triggered[last] {
            seq![Submission::Play(last as usize)]
        } else {
            Seq::empty()
        }
    }
}

/// Everything handed off at the end of a frame: the draws, then the plays.
pub open spec fn frame_submissions(objects: nat, triggered: Seq<bool>) -> Seq<Submission> {
    draws(objects) + plays(triggered)
}

/// Whether a frame may run in this phase.
pub open spec fn can_run(phase: Phase) -> bool {
    phase == Phase::Awake || phase == Phase::Running
}

/// The driver after an event, and what the loop should do.
pub open spec fn after_event(d: FrameDriver, ev: LoopEvent) -> (FrameDriver, Control) {
    if d.phase == Phase::Terminated {
        (d, Control::Exit)
    } else {
        match ev {
            LoopEvent::Resized { width, height } => (FrameDriver { window_size: [width, height], ..d }, Control::Continue),
            LoopEvent::CloseRequested => (FrameDriver { phase: Phase::Terminated, ..d }, Control::Exit),
            LoopEvent::Destroyed => (FrameDriver { phase: Phase::Terminated, ..d }, Control::Exit),
            LoopEvent::RedrawRequested => (d, if can_run(d.phase) { Control::RunFrame } else { Control::Continue }),
            LoopEvent::ResumeTimeReached => (d, Control::RequestRedraw),
            LoopEvent::Other => (d, Control::Continue),
        }
    }
}

/// The frame count after one more frame; it stays at the largest value.
pub open spec fn count_after(frames: u64) -> u64 {
    if frames < u64::MAX { (frames + 1) as u64 } else { frames }
}

/// The camera, then each of `objects` objects in list order.
fn callbacks_in_order(objects: usize) -> (r: Vec<Entity>)
    ensures
        r@ == callback_order(objects as nat),
{
    let mut r: Vec<Entity> = Vec::new();
    r.push(Entity::Camera);
    let mut i: usize = 0;
    while i < objects
        invariant
            i <= objects,
            r@ == seq![Entity::Camera] + Seq::new(i as nat, |k: int| Entity::Object(k as usize)),
        decreases objects - i,
    {
        r.push(Entity::Object(i));
        i = i + 1;
        assert(r@ =~= seq![Entity::Camera] + Seq::new(i as nat, |k: int| Entity::Object(k as usize)));
    }
    r
}

impl FrameDriver {
    /// A driver before any upload: no frame drawn, window size unknown.
    pub fn new() -> (r: FrameDriver)
        ensures
            r.phase == Phase::Uninitialized,
            r.window_size == [0u32, 0u32],
            r.clock == (FrameClock { time_since_start: 0, delta_time: 0 }),
            r.drawn_frames == 0,
    {
        FrameDriver { phase: Phase::Uninitialized, window_size: [0, 0], clock: FrameClock::new(), drawn_frames: 0 }
    }

    /// Called once every mesh is uploaded: returns whose `on_awake` to run,
    /// the camera's first, then each object's in list order. Only the first
    /// call hands anything out, so each `on_awake` runs once.
    pub fn awake(&mut self, objects: usize) -> (r: Vec<Entity>)
        ensures
            old(self).phase == Phase::Uninitialized ==> {
                &&& r@ == callback_order(objects as nat)
                &&& *final(self) == (FrameDriver { phase: Phase::Awake, ..*old(self) })
            },
            old(self).phase != Phase::Uninitialized ==> r@.len() == 0 && *final(self) == *old(self),
    {
        if self.phase != Phase::Uninitialized {
            return Vec::new();
        }
        self.phase = Phase::Awake;
        callbacks_in_order(objects)
    }

    /// Reacts to one event: a resize records the window size, a close or
    /// destroy ends the run, a redraw asks for a frame once awake.
    pub fn handle(&mut self, ev: LoopEvent) -> (r: Control)
        ensures
            (*final(self), r) == after_event(*old(self), ev),
    {
        if self.phase == Phase::Terminated {
            return Control::Exit;
        }
        match ev {
            LoopEvent::Resized { width, height } => {
                self.window_size = [width, height];
                Control::Continue
            },
            LoopEvent::CloseRequested | LoopEvent::Destroyed => {
                self.phase = Phase::Terminated;
                Control::Exit
            },
            LoopEvent::RedrawRequested => {
                if self.phase == Phase::Awake || self.phase == Phase::Running {
                    Control::RunFrame
                } else {
                    Control::Continue
                }
            },
            LoopEvent::ResumeTimeReached => Control::RequestRedraw,
            LoopEvent::Other => Control::Continue,
        }
    }

    /// Begins a frame at `now` (nanoseconds since start, from a monotonic
    /// clock): advances the clock and returns whose `tick_update` to run, the
    /// camera's first, then each object's in list order. Before the awake
    /// step or after termination nothing runs and nothing changes.
    pub fn begin_frame(&mut self, now: u64, objects: usize) -> (r: Vec<Entity>)
        ensures
            can_run(old(self).phase) ==> {
                &&& r@ == callback_order(objects as nat)
                &&& final(self).phase == Phase::Running
                &&& final(self).clock == clock_after(old(self).clock, now)
                &&& final(self).window_size == old(self).window_size
                &&& final(self).drawn_frames == old(self).drawn_frames
            },
            !can_run(old(self).phase) ==> r@.len() == 0 && *final(self) == *old(self),
    {
        if !(self.phase == Phase::Awake || self.phase == Phase::Running) {
            return Vec::new();
        }
        self.phase = Phase::Running;
        self.clock.tick(now);
        callbacks_in_order(objects)
    }

    /// Ends a running frame: returns one draw per object in list order, then
    /// one play per triggered audio source in list order, clears every
    /// trigger so that each plays at most once, and counts the frame. Outside
    /// a running frame nothing is handed off and nothing changes.
    pub fn end_frame(&mut self, objects: usize, triggered: &mut Vec<bool>) -> (r: Vec<Submission>)
        ensures
            old(self).phase == Phase::Running ==> {
                &&& r@ == frame_submissions(objects as nat, old(triggered)@)
                &&& final(triggered)@ == Seq::new(old(triggered)@.len(), |i: int| false)
                &&& final(self).drawn_frames == count_after(old(self).drawn_frames)
                &&& final(self).phase == old(self).phase
                &&& final(self).clock == old(self).clock
                &&& final(self).window_size == old(self).window_size
            },
            old(self).phase != Phase::Running ==> {
                &&& r@.len() == 0
                &&& *final(self) == *old(self)
                &&& final(triggered)@ == old(triggered)@
            },
    {
        let mut r: Vec<Submission> = Vec::new();
        if self.phase != Phase::Running {
            return r;
        }
        let mut i: usize = 0;
        while i < objects
            invariant
                i <= objects,
                r@ == draws(i as nat),
            decreases objects - i,
        {
            r.push(Submission::Draw(i));
            i = i + 1;
            assert(r@ =~= draws(i as nat));
        }
        let ghost flags = triggered@;
        let mut k: usize = 0;
        while k < triggered.len()
            invariant
                k <= triggered@.len(),
                triggered@.len() == flags.len(),
                r@ == draws(objects as nat) + plays(flags.subrange(0, k as int)),
                forall|j: int| 0 <= j < k ==> !#[trigger] triggered@[j],
                forall|j: int| k <= j < flags.len() ==> #[trigger] triggered@[j] == flags[j],
            decreases flags.len() - k,
        {
            assert(flags.subrange(0, k as int + 1).drop_last() =~= flags.subrange(0, k as int));
            if triggered[k] {
                r.push(Submission::Play(k));
                triggered[k] = false;
            }
            k = k + 1;
            assert(r@ =~= draws(objects as nat) + plays(flags.subrange(0, k as int)));
        }
        assert(flags.subrange(0, flags.len() as int) =~= flags);
        assert(triggered@ =~= Seq::new(flags.len(), |i: int| false));
        if self.drawn_frames < u64::MAX {
            self.drawn_frames = self.drawn_frames + 1;
        }
        r
    }

    /// Average frames per second as the overlay shows it: frames drawn over
    /// whole seconds since start, plus one.
    pub fn frames_per_second(&self) -> (r: u64)
        ensures
            r as int == self.drawn_frames as int / (whole_seconds(self.clock.time_since_start) as int + 1),
    {
        self.drawn_frames / (self.clock.seconds_since_start() + 1)
    }
}

/// The audio source a submission plays, or -1 for a draw.
pub open spec fn played_source(s: Submission) -> int {
    match s {
        Submission::Play(i) => i as int,
        Submission::Draw(_) => -1,
    }
}

/// A source is played in a frame exactly when it was triggered, and at most
/// once: the plays name distinct sources, in list order.
pub proof fn lemma_plays_are_triggered(triggered: Seq<bool>)
    requires
        triggered.len() <= usize::MAX,
    ensures
        forall|i: int| 0 <= i < triggered.len() ==> (plays(triggered).contains(Submission::Play(i as usize)) <==> triggered[i]),
        forall|a: int| 0 <= a < plays(triggered).len() ==> {
            &&& #[trigger] plays(triggered)[a] is Play
            &&& 0 <= played_source(plays(triggered)[a]) < triggered.len()
        },
        forall|a: int, b: int|
            0 <= a < b < plays(triggered).len() ==> played_source(#[trigger] plays(triggered)[a]) < played_source(#[trigger] plays(triggered)[b]),
    decreases triggered.len(),
{
    if triggered.len() > 0 {
        let last = triggered.len() - 1;
        let prefix = triggered.drop_last();
        lemma_plays_are_triggered(prefix);
        let tail = if triggered[last] { seq![Submission::Play(last as usize)] } else { Seq::<Submission>::empty() };
        let all = plays(triggered);
        assert(all == plays(prefix) + tail);
        assert forall|i: int| 0 <= i < triggered.len() implies (all.contains(Submission::Play(i as usize)) <==> triggered[i]) by {
            if i < last {
                assert(prefix[i] == triggered[i]);
                if all.contains(Submission::Play(i as usize)) {
                    let a = choose|a: int| 0 <= a < all.len() && all[a] == Submission::Play(i as usize);
                    if a >= plays(prefix).len() {
                        assert(all[a] == tail[a - plays(prefix).len()]);
                    } else {
                        assert(plays(prefix)[a] == all[a]);
                    }
                }
                if triggered[i] {
                    let a = choose|a: int| 0 <= a < plays(prefix).len() && plays(prefix)[a] == Submission::Play(i as usize);
                    assert(all[a] == plays(prefix)[a]);
                }
            } else {
                if triggered[i] {
                    assert(all[all.len() - 1] == Submission::Play(i as usize));
                }
                if all.contains(Submission::Play(i as usize)) {
                    let a = choose|a: int| 0 <= a < all.len() && all[a] == Submission::Play(i as usize);
                    if a < plays(prefix).len() {
                        assert(plays(prefix)[a] == all[a]);
                    }
                }
            }
        }
        assert forall|a: int| 0 <= a < all.len() implies {
            &&& #[trigger] all[a] is Play
            &&& 0 <= played_source(all[a]) < triggered.len()
        } by {
            if a < plays(prefix).len() {
                assert(plays(prefix)[a] == all[a]);
            }
        }
        assert forall|a: int, b: int| 0 <= a < b < all.len() implies played_source(#[trigger] all[a]) < played_source(#[trigger] all[b]) by {
            assert(plays(prefix)[a] == all[a]);
            if b < plays(prefix).len() {
                assert(plays(prefix)[b] == all[b]);
            }
        }
    }
}

/// Once a frame has cleared every trigger, the next frame plays nothing
/// until a source is triggered again.
pub proof fn lemma_cleared_triggers_play_nothing(n: nat)
    ensures
        plays(Seq::new(n, |i: int| false)) == Seq::<Submission>::empty(),
    decreases n,
{
    if n > 0 {
        assert(Seq::new(n, |i: int| false).drop_last() =~= Seq::new((n - 1) as nat, |i: int| false));
        lemma_cleared_triggers_play_nothing((n - 1) as nat);
    }
}

/// A frame over a scene with no objects and no audio sources hands nothing
/// off, and the time since start does not go back.
pub proof fn lemma_empty_frame(clock: FrameClock, now: u64)
    ensures
        frame_submissions(0, Seq::<bool>::empty()) == Seq::<Submission>::empty(),
        clock_after(clock, now).time_since_start >= clock.time_since_start,
{
    assert(frame_submissions(0, Seq::<bool>::empty()) =~= Seq::<Submission>::empty());
}

/// In each frame the camera's callback runs first and every object's runs
/// exactly once, in list order.
pub proof fn lemma_each_callback_once(objects: nat)
    requires
        objects <= usize::MAX,
    ensures
        callback_order(objects).len() == objects + 1,
        callback_order(objects)[0] == Entity::Camera,
        forall|i: int| 0 <= i < objects ==> #[trigger] callback_order(objects)[i + 1] == Entity::Object(i as usize),
        callback_order(objects).no_duplicates(),
{
    let order = callback_order(objects);
    assert forall|i: int| 0 <= i < objects implies #[trigger] order[i + 1] == Entity::Object(i as usize) by {
        assert(order[i + 1] == Seq::new(objects, |k: int| Entity::Object(k as usize))[i]);
    }
    assert forall|a: int, b: int| 0 <= a < order.len() && 0 <= b < order.len() && a != b implies order[a] != order[b] by {
        if a > 0 && b > 0 {
            assert(order[(a - 1) + 1] == Entity::Object((a - 1) as usize));
            assert(order[(b - 1) + 1] == Entity::Object((b - 1) as usize));
        } else if a > 0 {
            assert(order[(a - 1) + 1] == Entity::Object((a - 1) as usize));
        } else {
            assert(order[(b - 1) + 1] == Entity::Object((b - 1) as usize));
        }
    }
}

} // verus!
