//! Sprite animation: frame indices stepped by a repeating timer, for generic
//! entities with a fixed number of frames and for the player, whose frames
//! and frame duration follow its idling or walking state.

use crate::timer::{FrameTimer, TimerView};
use vstd::arithmetic::div_mod::{
    lemma_add_mod_noop, lemma_add_mod_noop_right, lemma_div_multiples_vanish_fancy,
    lemma_div_plus_one, lemma_mod_add_multiples_vanish, lemma_mod_multiples_vanish,
    lemma_small_mod,
};
use vstd::prelude::*;

verus! {

/// Duration of one frame of a generic animation, in nanoseconds.
pub const BASIC_INTERVAL: u64 = 500_000_000;

/// Number of frames of the player's idle cycle.
pub const IDLE_FRAMES: usize = 2;

/// Duration of one idle frame, in nanoseconds.
pub const IDLE_INTERVAL: u64 = 500_000_000;

/// Number of frames of the player's walk cycle.
pub const WALKING_FRAMES: usize = 6;

/// Duration of one walking frame, in nanoseconds.
pub const WALKING_INTERVAL: u64 = 50_000_000;

/// First sheet index of the walk cycle: walking frames follow the idle ones.
pub const WALKING_SHEET_OFFSET: usize = 6;

/// The walking frames on which a foot touches the ground.
pub const FOOTFALL_FRAME_A: usize = 2;

/// The other footfall frame of the walk cycle.
pub const FOOTFALL_FRAME_B: usize = 5;

/// What an animation holds: its timer, its current frame and its number of frames.
pub struct AnimationView {
    pub timer: TimerView,
    pub frame: nat,
    pub frame_count: nat,
}

impl AnimationView {
    pub open spec fn wf(self) -> bool {
        self.timer.wf() && self.frame < self.frame_count
    }

    /// An animation at its first frame with its timer just started.
    pub open spec fn fresh(period: nat, frame_count: nat) -> AnimationView {
        AnimationView { timer: TimerView::fresh(period), frame: 0, frame_count }
    }

    /// One time step: the frame moves on by one, cyclically, when the timer fires.
    pub open spec fn advance(self, delta: nat) -> AnimationView {
        let timer = self.timer.tick(delta);
        AnimationView {
            timer,
            frame: if timer.fired { (self.frame + 1) % self.frame_count } else { self.frame },
            frame_count: self.frame_count,
        }
    }

    /// The animation after one time step per element of `deltas`, in order.
    pub open spec fn run(self, deltas: Seq<u64>) -> AnimationView
        decreases deltas.len(),
    {
        if deltas.len() == 0 {
            self
        } else {
            self.advance(deltas[0] as nat).run(deltas.drop_first())
        }
    }
}

/// The sum of a sequence of time steps.
pub open spec fn total(deltas: Seq<u64>) -> nat
    decreases deltas.len(),
{
    if deltas.len() == 0 {
        0
    } else {
        deltas[0] as nat + total(deltas.drop_first())
    }
}

proof fn lemma_run_counts_periods(a: AnimationView, deltas: Seq<u64>)
    requires
        a.wf(),
        forall|i: int| 0 <= i < deltas.len() ==> deltas[i] <= a.timer.period,
    ensures
        a.run(deltas).wf(),
        a.run(deltas).frame_count == a.frame_count,
        a.run(deltas).timer.period == a.timer.period,
        a.run(deltas).timer.elapsed == (a.timer.elapsed + total(deltas)) % a.timer.period,
        a.run(deltas).frame == (a.frame + (a.timer.elapsed + total(deltas)) / a.timer.period)
            % a.frame_count,
    decreases deltas.len(),
{
    if deltas.len() > 0 {
        let p = a.timer.period as int;
        let n = a.frame_count as int;
        let s = a.timer.elapsed + deltas[0] as int;
        let b = a.advance(deltas[0] as nat);
        let rest = deltas.drop_first();
        assert forall|i: int| 0 <= i < rest.len() implies rest[i] <= b.timer.period by {
            assert(rest[i] == deltas[i + 1]);
        }
        lemma_run_counts_periods(b, rest);
        let x = b.timer.elapsed + total(rest) as int;
        let f = a.frame as int;
        if s >= p {
            assert(b.timer.elapsed == s - p) by {
                lemma_mod_add_multiples_vanish(s - p, p);
                lemma_small_mod((s - p) as nat, p as nat);
            }
            assert(s + total(rest) == p + x);
            assert(total(deltas) == deltas[0] + total(rest));
            lemma_div_plus_one(x, p);
            lemma_mod_add_multiples_vanish(x, p);
            lemma_add_mod_noop(f + 1, x / p, n);
            lemma_add_mod_noop_right((f + 1) % n, x / p, n);
        } else {
            lemma_small_mod(s as nat, p as nat);
        }
        assert(a.run(deltas) == b.run(rest));
    } else {
        lemma_small_mod(a.timer.elapsed, a.timer.period);
        lemma_small_mod(a.frame, a.frame_count);
        assert(a.timer.elapsed / a.timer.period == 0) by (nonlinear_arith)
            requires
                a.timer.elapsed < a.timer.period,
        ;
    }
}

/// Time steps of at most one period each that add up to exactly `k` periods
/// move the frame on by exactly `k` steps, cyclically, and leave the time
/// accumulated towards the next period as it was.
pub proof fn lemma_whole_periods(a: AnimationView, deltas: Seq<u64>, k: nat)
    requires
        a.wf(),
        forall|i: int| 0 <= i < deltas.len() ==> deltas[i] <= a.timer.period,
        total(deltas) == k * a.timer.period,
    ensures
        a.run(deltas).frame == (a.frame + k) % a.frame_count,
        a.run(deltas).timer.elapsed == a.timer.elapsed,
{
    lemma_run_counts_periods(a, deltas);
    let p = a.timer.period as int;
    let e = a.timer.elapsed as int;
    assert(e + total(deltas) == p * k + e) by (nonlinear_arith)
        requires
            total(deltas) == k * p,
    ;
    lemma_div_multiples_vanish_fancy(k as int, e, p);
    lemma_mod_multiples_vanish(k as int, e, p);
    lemma_small_mod(e as nat, p as nat);
}

/// A looping animation with a fixed number of frames.
#[derive(Clone, Copy, Debug)]
pub struct BasicAnimation {
    timer: FrameTimer,
    frame: usize,
    num_frames: usize,
}

impl View for BasicAnimation {
    type V = AnimationView;

    closed spec fn view(&self) -> AnimationView {
        AnimationView { timer: self.timer@, frame: self.frame as nat, frame_count: self.num_frames as nat }
    }
}

impl BasicAnimation {
    /// An animation of `num_frames` frames, at its first frame.
    pub fn new(num_frames: usize) -> (r: BasicAnimation)
        requires
            num_frames >= 1,
        ensures
            r@ == AnimationView::fresh(BASIC_INTERVAL as nat, num_frames as nat),
            r@.wf(),
    {
        Self::idling(num_frames)
    }

    fn idling(num_frames: usize) -> (r: BasicAnimation)
        requires
            num_frames >= 1,
        ensures
            r@ == AnimationView::fresh(BASIC_INTERVAL as nat, num_frames as nat),
    {
        BasicAnimation { timer: FrameTimer::new(BASIC_INTERVAL), frame: 0, num_frames }
    }

    /// Lets `delta` nanoseconds pass.
    pub fn update_timer(&mut self, delta: u64)
        requires
            old(self)@.wf(),
        ensures
            final(self)@ == old(self)@.advance(delta as nat),
            final(self)@.wf(),
    {
        self.timer.tick(delta);
        if self.timer.finished() {
            self.frame = (self.frame + 1) % self.num_frames;
        }
    }

    /// The sprite sheet index to show: the current frame.
    pub fn get_atlas_index(&self) -> (r: usize)
        ensures
            r == self@.frame,
    {
        self.frame
    }

    /// Whether the frame moved on during the last time step.
    pub fn changed(&self) -> (r: bool)
        ensures
            r == self@.timer.fired,
    {
        self.timer.finished()
    }

    /// Copies the frame into the sheet index shown, when it moved on.
    pub fn update_atlas(&self, index: &mut usize)
        ensures
            *final(index) == if self@.timer.fired { self@.frame } else { *old(index) as nat },
    {
        if self.changed() {
            *index = self.get_atlas_index();
        }
    }
}

/// What the player is doing, which selects its frames.
#[derive(Clone, Copy, Debug, PartialEq, Eq, Structural)]
pub enum PlayerAnimationState {
    Idling,
    Walking,
}

impl PlayerAnimationState {
    pub open spec fn frame_count(self) -> nat {
        match self {
            PlayerAnimationState::Idling => IDLE_FRAMES as nat,
            PlayerAnimationState::Walking => WALKING_FRAMES as nat,
        }
    }

    pub open spec fn interval(self) -> nat {
        match self {
            PlayerAnimationState::Idling => IDLE_INTERVAL as nat,
            PlayerAnimationState::Walking => WALKING_INTERVAL as nat,
        }
    }
}

/// What a player animation holds: an animation and the state it shows.
pub struct PlayerView {
    pub anim: AnimationView,
    pub state: PlayerAnimationState,
}

impl PlayerView {
    pub open spec fn wf(self) -> bool {
        &&& self.anim.wf()
        &&& self.anim.frame_count == self.state.frame_count()
        &&& self.anim.timer.period == self.state.interval()
    }

    /// The animation of a state, at its first frame with its timer just started.
    pub open spec fn fresh(state: PlayerAnimationState) -> PlayerView {
        PlayerView { anim: AnimationView::fresh(state.interval(), state.frame_count()), state }
    }

    /// One time step; the state stays.
    pub open spec fn advance(self, delta: nat) -> PlayerView {
        PlayerView { anim: self.anim.advance(delta), state: self.state }
    }

    /// The animation after one time step per element of `deltas`, in order.
    pub open spec fn run(self, deltas: Seq<u64>) -> PlayerView {
        PlayerView { anim: self.anim.run(deltas), state: self.state }
    }

    /// The animation once the player is in `state`: started afresh on a change.
    pub open spec fn with_state(self, state: PlayerAnimationState) -> PlayerView {
        if self.state == state {
            self
        } else {
            PlayerView::fresh(state)
        }
    }

    /// The sprite sheet index: idle frames first, then the walking frames.
    pub open spec fn atlas_index(self) -> nat {
        match self.state {
            PlayerAnimationState::Idling => self.anim.frame,
            PlayerAnimationState::Walking => WALKING_SHEET_OFFSET as nat + self.anim.frame,
        }
    }

    /// Whether a footstep is heard: the walk cycle just reached a footfall frame.
    pub open spec fn steps(self) -> bool {
        &&& self.state == PlayerAnimationState::Walking
        &&& self.anim.timer.fired
        &&& (self.anim.frame == FOOTFALL_FRAME_A || self.anim.frame == FOOTFALL_FRAME_B)
    }
}

/// The player's animation.
#[derive(Clone, Copy, Debug)]
pub struct PlayerAnimation {
    timer: FrameTimer,
    frame: usize,
    state: PlayerAnimationState,
}

impl View for PlayerAnimation {
    type V = PlayerView;

    closed spec fn view(&self) -> PlayerView {
        PlayerView {
            anim: AnimationView {
                timer: self.timer@,
                frame: self.frame as nat,
                frame_count: self.state.frame_count(),
            },
            state: self.state,
        }
    }
}

impl PlayerAnimation {
    fn idling() -> (r: PlayerAnimation)
        ensures
            r@ == PlayerView::fresh(PlayerAnimationState::Idling),
    {
        PlayerAnimation {
            timer: FrameTimer::new(IDLE_INTERVAL),
            frame: 0,
            state: PlayerAnimationState::Idling,
        }
    }

    fn walking() -> (r: PlayerAnimation)
        ensures
            r@ == PlayerView::fresh(PlayerAnimationState::Walking),
    {
        PlayerAnimation {
            timer: FrameTimer::new(WALKING_INTERVAL),
            frame: 0,
            state: PlayerAnimationState::Walking,
        }
    }

    /// The player's animation at rest.
    pub fn new() -> (r: PlayerAnimation)
        ensures
            r@ == PlayerView::fresh(PlayerAnimationState::Idling),
            r@.wf(),
    {
        Self::idling()
    }

    /// Lets `delta` nanoseconds pass.
    pub fn update_timer(&mut self, delta: u64)
        requires
            old(self)@.wf(),
        ensures
            final(self)@ == old(self)@.advance(delta as nat),
            final(self)@.wf(),
    {
        self.timer.tick(delta);
        if !self.timer.finished() {
            return;
        }
        self.frame = (self.frame + 1) % match self.state {
            PlayerAnimationState::Idling => IDLE_FRAMES,
            PlayerAnimationState::Walking => WALKING_FRAMES,
        };
    }

    /// Puts the player in `state`; a change restarts the animation of the new
    /// state at its first frame, with nothing carried over from the old one.
    pub fn update_state(&mut self, state: PlayerAnimationState)
        requires
            old(self)@.wf(),
        ensures
            final(self)@ == old(self)@.with_state(state),
            final(self)@.wf(),
            final(self)@.state == state,
            old(self)@.state != state ==> final(self)@.anim.frame == 0
                && final(self)@.anim.timer.elapsed == 0 && !final(self)@.anim.timer.fired,
    {
        if self.state != state {
            match state {
                PlayerAnimationState::Idling => *self = Self::idling(),
                PlayerAnimationState::Walking => *self = Self::walking(),
            }
        }
    }

    /// Whether the frame moved on during the last time step.
    pub fn changed(&self) -> (r: bool)
        ensures
            r == self@.anim.timer.fired,
    {
        self.timer.finished()
    }

    /// The sprite sheet index to show: `[0, 2)` while idling, `[6, 12)` while walking.
    pub fn get_atlas_index(&self) -> (r: usize)
        requires
            self@.wf(),
        ensures
            r == self@.atlas_index(),
            self@.state == PlayerAnimationState::Idling ==> r < IDLE_FRAMES,
            self@.state == PlayerAnimationState::Walking ==> WALKING_SHEET_OFFSET <= r
                < WALKING_SHEET_OFFSET + WALKING_FRAMES,
    {
        match self.state {
            PlayerAnimationState::Idling => self.frame,
            PlayerAnimationState::Walking => WALKING_SHEET_OFFSET + self.frame,
        }
    }

    /// Copies the sheet index into the one shown, when the frame moved on.
    pub fn update_atlas(&self, index: &mut usize)
        requires
            self@.wf(),
        ensures
            *final(index) == if self@.anim.timer.fired { self@.atlas_index() } else { *old(index) as nat },
    {
        if self.changed() {
            *index = self.get_atlas_index();
        }
    }

    /// The state shown.
    pub fn state(&self) -> (r: PlayerAnimationState)
        ensures
            r == self@.state,
    {
        self.state
    }

    /// The current frame within the state's cycle.
    pub fn frame(&self) -> (r: usize)
        ensures
            r == self@.anim.frame,
    {
        self.frame
    }
}

/// Whether a footstep sound is due: the player walks and its frame just
/// moved on to a footfall frame.
pub fn trigger_step_sfx(animation: &PlayerAnimation) -> (r: bool)
    ensures
        r == animation@.steps(),
        r ==> animation@.state == PlayerAnimationState::Walking,
        r ==> animation@.anim.frame == FOOTFALL_FRAME_A || animation@.anim.frame == FOOTFALL_FRAME_B,
{
    animation.state == PlayerAnimationState::Walking && animation.changed() && (animation.frame
        == FOOTFALL_FRAME_A || animation.frame == FOOTFALL_FRAME_B)
}

/// Idle and walking frames occupy disjoint ranges of the sprite sheet:
/// `[0, 2)` and `[6, 12)`.
pub proof fn lemma_atlas_ranges(p: PlayerView, q: PlayerView)
    requires
        p.wf(),
        q.wf(),
    ensures
        p.state == PlayerAnimationState::Idling ==> p.atlas_index() < IDLE_FRAMES,
        p.state == PlayerAnimationState::Walking ==> WALKING_SHEET_OFFSET <= p.atlas_index()
            < WALKING_SHEET_OFFSET + WALKING_FRAMES,
        p.state != q.state ==> p.atlas_index() != q.atlas_index(),
{
}

/// Whatever time steps pass, a footstep is only ever heard on a footfall
/// frame of the walk cycle, and never while idling.
pub proof fn lemma_steps_only_on_footfalls(p: PlayerView, deltas: Seq<u64>)
    requires
        p.wf(),
    ensures
        p.run(deltas).wf(),
        p.run(deltas).steps() ==> p.state == PlayerAnimationState::Walking,
        p.run(deltas).steps() ==> p.run(deltas).anim.frame == FOOTFALL_FRAME_A
            || p.run(deltas).anim.frame == FOOTFALL_FRAME_B,
{
    lemma_run_wf(p.anim, deltas);
}

proof fn lemma_run_wf(a: AnimationView, deltas: Seq<u64>)
    requires
        a.wf(),
    ensures
        a.run(deltas).wf(),
        a.run(deltas).frame_count == a.frame_count,
        a.run(deltas).timer.period == a.timer.period,
    decreases deltas.len(),
{
    if deltas.len() > 0 {
        lemma_run_wf(a.advance(deltas[0] as nat), deltas.drop_first());
    }
}

} // verus!
