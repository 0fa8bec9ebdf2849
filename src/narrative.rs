//! The narrative: five chapters, each played in two beats (grow the
//! population, then shrink it and move on), paced by an accumulated timer.

use vstd::prelude::*;

verus! {

/// One second, in nanoseconds.
pub const SECOND: u64 = 1_000_000_000;

/// Wait before each beat of the introduction.
pub const INTRO_WAIT: u64 = 1 * SECOND;

/// Wait before each beat of the first chapter.
pub const FIRST_WAIT: u64 = 2 * SECOND;

/// Wait before each beat of the second chapter.
pub const SECOND_WAIT: u64 = 1 * SECOND;

/// Wait before the closing beat of the third chapter.
pub const THIRD_WAIT: u64 = 2 * SECOND;

/// Wait before the closing beat of the ending.
pub const ENDING_WAIT: u64 = 20 * SECOND;

/// Spirits in the first chapter and in the ending.
pub const FEW_NPCS: u32 = 14;

/// Spirits in the second chapter.
pub const MANY_NPCS: u32 = 99;

/// Spirits in the third chapter.
pub const CROWD_NPCS: u32 = 199;

/// Items scattered by a beat that grows the population.
pub const GROW_ITEMS: u32 = 30;

/// Items scattered by a beat that shrinks the population.
pub const SHRINK_ITEMS: u32 = 20;

/// The chapters, in the order in which they are played.
#[derive(Clone, Copy, Debug, PartialEq, Eq, Structural, Default)]
pub enum GameState {
    #[default]
    Intro,
    First,
    Second,
    Third,
    Ending,
}

impl GameState {
    /// The chapter that follows; the ending leads back to the introduction.
    pub open spec fn spec_next(self) -> GameState {
        match self {
            GameState::Intro => GameState::First,
            GameState::First => GameState::Second,
            GameState::Second => GameState::Third,
            GameState::Third => GameState::Ending,
            GameState::Ending => GameState::Intro,
        }
    }

    /// The chapter that follows.
    pub fn next(&self) -> (r: GameState)
        ensures
            r == self.spec_next(),
    {
        match self {
            GameState::Intro => GameState::First,
            GameState::First => GameState::Second,
            GameState::Second => GameState::Third,
            GameState::Third => GameState::Ending,
            GameState::Ending => GameState::Intro,
        }
    }
}

/// The lines the dreamer's voice speaks.
#[derive(Clone, Copy, Debug, PartialEq, Eq, Structural)]
pub enum Line {
    Greeting,
    HelpMe,
    DontLeave,
    WontGetFar,
    Trapped,
    AsDoI,
    CantEscape,
    SpiritsWalk,
    UntilWake,
}

impl Line {
    pub open spec fn spec_text(self) -> Seq<char> {
        match self {
            Line::Greeting => "Hello, dreamer, again."@,
            Line::HelpMe => "You should help me find my way"@,
            Line::DontLeave => "Hey! Don't Leave"@,
            Line::WontGetFar => "You won't get far..."@,
            Line::Trapped => "You are trapped here."@,
            Line::AsDoI => "As do i"@,
            Line::CantEscape => "You can't escape."@,
            Line::SpiritsWalk => "All the little spirits walk with you."@,
            Line::UntilWake => "Until you wake up"@,
        }
    }

    /// The words of the line.
    pub fn text(&self) -> (r: &'static str)
        ensures
            r@ == self.spec_text(),
    {
        match self {
            Line::Greeting => "Hello, dreamer, again.",
            Line::HelpMe => "You should help me find my way",
            Line::DontLeave => "Hey! Don't Leave",
            Line::WontGetFar => "You won't get far...",
            Line::Trapped => "You are trapped here.",
            Line::AsDoI => "As do i",
            Line::CantEscape => "You can't escape.",
            Line::SpiritsWalk => "All the little spirits walk with you.",
            Line::UntilWake => "Until you wake up",
        }
    }
}

/// What one beat asks of the world, after every spirit, item and pop-up of
/// the population has been removed.
#[derive(Clone, Copy, Debug, PartialEq, Eq)]
pub struct Beat {
    /// Spirits to spawn.
    pub npcs: u32,
    /// Whether the dreamer's face pops up.
    pub popup: bool,
    /// Items to scatter.
    pub items: u32,
    /// The line the voice now speaks, if it changes.
    pub line: Option<Line>,
    /// The chapter entered, when the beat closes a chapter.
    pub next_chapter: Option<GameState>,
    /// Whether the game goes back to its first screen.
    pub back_to_title: bool,
}

/// A request to the world, carried out in the order given.
#[derive(Clone, Copy, Debug, PartialEq, Eq, Structural)]
pub enum Request {
    /// Remove every spirit, item and pop-up.
    DespawnEveryone,
    /// Spawn the player.
    SpawnPlayer,
    /// Spawn one spirit.
    SpawnNPC,
    /// Show the dreamer's face.
    SpawnPopUp,
    /// Scatter one item.
    SpawnItem,
    /// Let the voice speak a line.
    SetText(Line),
    /// Go back to the game's first screen.
    ShowTitle,
}

/// `n` copies of one request.
pub open spec fn repeat(r: Request, n: nat) -> Seq<Request> {
    Seq::new(n, |_i: int| r)
}

impl Beat {
    /// The requests of the beat: the population is removed, then spirits,
    /// the pop-up and items are spawned, then the voice's line is set.
    pub open spec fn spec_requests(self) -> Seq<Request> {
        seq![Request::DespawnEveryone] + repeat(Request::SpawnNPC, self.npcs as nat) + (
        if self.popup {
            seq![Request::SpawnPopUp]
        } else {
            Seq::empty()
        }) + repeat(Request::SpawnItem, self.items as nat) + match self.line {
            Some(line) => seq![Request::SetText(line)],
            None => Seq::empty(),
        } + (if self.back_to_title {
            seq![Request::ShowTitle]
        } else {
            Seq::empty()
        })
    }

    /// The requests of the beat, in order.
    pub fn requests(&self) -> (r: Vec<Request>)
        ensures
            r@ == self.spec_requests(),
    {
        let mut r: Vec<Request> = Vec::new();
        r.push(Request::DespawnEveryone);
        push_copies(&mut r, Request::SpawnNPC, self.npcs);
        if self.popup {
            r.push(Request::SpawnPopUp);
        }
        push_copies(&mut r, Request::SpawnItem, self.items);
        match self.line {
            Some(line) => r.push(Request::SetText(line)),
            None => {},
        }
        if self.back_to_title {
            r.push(Request::ShowTitle);
        }
        proof {
            assert(r@ =~= self.spec_requests());
        }
        r
    }
}

pub(crate) fn push_copies(v: &mut Vec<Request>, x: Request, n: u32)
    ensures
        final(v)@ == old(v)@ + repeat(x, n as nat),
{
    let mut i: u32 = 0;
    while i < n
        invariant
            i <= n,
            v@ == old(v)@ + repeat(x, i as nat),
        decreases n - i,
    {
        v.push(x);
        i = i + 1;
        proof {
            assert(v@ =~= old(v)@ + repeat(x, i as nat));
        }
    }
}

/// The tunable timing and population figures of the narrative. Waits are in
/// nanoseconds.
#[derive(Clone, Copy, Debug, PartialEq, Eq, Structural)]
pub struct Pacing {
    pub intro_wait: u64,
    pub first_wait: u64,
    pub second_wait: u64,
    pub third_wait: u64,
    pub ending_wait: u64,
    pub few_npcs: u32,
    pub many_npcs: u32,
    pub crowd_npcs: u32,
    pub grow_items: u32,
    pub shrink_items: u32,
}

impl Pacing {
    pub open spec fn spec_standard() -> Pacing {
        Pacing {
            intro_wait: INTRO_WAIT,
            first_wait: FIRST_WAIT,
            second_wait: SECOND_WAIT,
            third_wait: THIRD_WAIT,
            ending_wait: ENDING_WAIT,
            few_npcs: FEW_NPCS,
            many_npcs: MANY_NPCS,
            crowd_npcs: CROWD_NPCS,
            grow_items: GROW_ITEMS,
            shrink_items: SHRINK_ITEMS,
        }
    }

    /// The figures the game is played with.
    pub fn standard() -> (r: Pacing)
        ensures
            r == Pacing::spec_standard(),
    {
        Pacing {
            intro_wait: INTRO_WAIT,
            first_wait: FIRST_WAIT,
            second_wait: SECOND_WAIT,
            third_wait: THIRD_WAIT,
            ending_wait: ENDING_WAIT,
            few_npcs: FEW_NPCS,
            many_npcs: MANY_NPCS,
            crowd_npcs: CROWD_NPCS,
            grow_items: GROW_ITEMS,
            shrink_items: SHRINK_ITEMS,
        }
    }

    /// The time that must be exceeded before the beat of `chapter` and
    /// `phase` plays: the growing beat (`phase` false) of the third chapter
    /// and of the ending follows at once.
    pub open spec fn spec_wait(self, chapter: GameState, phase: bool) -> u64 {
        match chapter {
            GameState::Intro => self.intro_wait,
            GameState::First => self.first_wait,
            GameState::Second => self.second_wait,
            GameState::Third => if phase { self.third_wait } else { 0 },
            GameState::Ending => if phase { self.ending_wait } else { 0 },
        }
    }

    /// The wait before the beat of `chapter` and `phase`.
    pub fn wait(&self, chapter: GameState, phase: bool) -> (r: u64)
        ensures
            r == self.spec_wait(chapter, phase),
    {
        match chapter {
            GameState::Intro => self.intro_wait,
            GameState::First => self.first_wait,
            GameState::Second => self.second_wait,
            GameState::Third => if phase { self.third_wait } else { 0 },
            GameState::Ending => if phase { self.ending_wait } else { 0 },
        }
    }

    /// The beat of `chapter`: the growing one when `phase` is false, the
    /// closing one, which enters the next chapter, when it is true.
    pub open spec fn spec_beat(self, chapter: GameState, phase: bool) -> Beat {
        let grow = |npcs: u32, popup: bool, line: Option<Line>|
            Beat {
                npcs,
                popup,
                items: self.grow_items,
                line,
                next_chapter: None,
                back_to_title: false,
            };
        let close = |items: u32, line: Option<Line>|
            Beat {
                npcs: 0,
                popup: false,
                items,
                line,
                next_chapter: Some(chapter.spec_next()),
                back_to_title: chapter == GameState::Ending,
            };
        match (chapter, phase) {
            (GameState::Intro, false) => grow(0, true, Some(Line::HelpMe)),
            (GameState::Intro, true) => close(self.shrink_items, Some(Line::DontLeave)),
            (GameState::First, false) => grow(self.few_npcs, false, Some(Line::WontGetFar)),
            (GameState::First, true) => close(self.shrink_items, Some(Line::Trapped)),
            (GameState::Second, false) => grow(self.many_npcs, false, Some(Line::AsDoI)),
            (GameState::Second, true) => close(self.shrink_items, Some(Line::CantEscape)),
            (GameState::Third, false) => grow(self.crowd_npcs, true, None),
            (GameState::Third, true) => close(0, Some(Line::SpiritsWalk)),
            (GameState::Ending, false) => grow(self.few_npcs, false, Some(Line::UntilWake)),
            (GameState::Ending, true) => close(0, None),
        }
    }

    /// The beat of `chapter` and `phase`.
    pub fn beat(&self, chapter: GameState, phase: bool) -> (r: Beat)
        ensures
            r == self.spec_beat(chapter, phase),
    {
        let next_chapter = Some(chapter.next());
        let back_to_title = chapter == GameState::Ending;
        match (chapter, phase) {
            (GameState::Intro, false) => self.grow(0, true, Some(Line::HelpMe)),
            (GameState::Intro, true) => Beat {
                npcs: 0,
                popup: false,
                items: self.shrink_items,
                line: Some(Line::DontLeave),
                next_chapter,
                back_to_title,
            },
            (GameState::First, false) => self.grow(self.few_npcs, false, Some(Line::WontGetFar)),
            (GameState::First, true) => Beat {
                npcs: 0,
                popup: false,
                items: self.shrink_items,
                line: Some(Line::Trapped),
                next_chapter,
                back_to_title,
            },
            (GameState::Second, false) => self.grow(self.many_npcs, false, Some(Line::AsDoI)),
            (GameState::Second, true) => Beat {
                npcs: 0,
                popup: false,
                items: self.shrink_items,
                line: Some(Line::CantEscape),
                next_chapter,
                back_to_title,
            },
            (GameState::Third, false) => self.grow(self.crowd_npcs, true, None),
            (GameState::Third, true) => Beat {
                npcs: 0,
                popup: false,
                items: 0,
                line: Some(Line::SpiritsWalk),
                next_chapter,
                back_to_title,
            },
            (GameState::Ending, false) => self.grow(self.few_npcs, false, Some(Line::UntilWake)),
            (GameState::Ending, true) => Beat {
                npcs: 0,
                popup: false,
                items: 0,
                line: None,
                next_chapter,
                back_to_title,
            },
        }
    }

    fn grow(&self, npcs: u32, popup: bool, line: Option<Line>) -> (r: Beat)
        ensures
            r == (Beat {
                npcs,
                popup,
                items: self.grow_items,
                line,
                next_chapter: None,
                back_to_title: false,
            }),
    {
        Beat { npcs, popup, items: self.grow_items, line, next_chapter: None, back_to_title: false }
    }
}

/// Where the narrative stands: the chapter, the time accumulated since the
/// last beat, in nanoseconds, and whether the chapter's growing beat has
/// been played.
#[derive(Clone, Copy, Debug, PartialEq, Eq, Structural)]
pub struct NarrativeState {
    pub chapter: GameState,
    pub elapsed: u64,
    pub phase: bool,
}

impl NarrativeState {
    /// The start of the game.
    pub open spec fn spec_new() -> NarrativeState {
        NarrativeState { chapter: GameState::Intro, elapsed: 0, phase: false }
    }

    /// The narrative at the start of the game.
    pub fn new() -> (r: NarrativeState)
        ensures
            r == NarrativeState::spec_new(),
    {
        NarrativeState { chapter: GameState::Intro, elapsed: 0, phase: false }
    }

    /// The state after `delta` more nanoseconds, before any beat; the
    /// accumulated time stops at the largest value it can hold.
    pub open spec fn spec_advance(self, delta: u64) -> NarrativeState {
        NarrativeState {
            elapsed: if self.elapsed + delta > u64::MAX { u64::MAX } else { (self.elapsed
                + delta) as u64 },
            ..self
        }
    }

    /// Whether the current beat is due: its wait has been exceeded.
    pub open spec fn due(self, pacing: Pacing) -> bool {
        self.elapsed > pacing.spec_wait(self.chapter, self.phase)
    }

    /// The state after the current beat: the timer restarts, and the
    /// closing beat moves on to the next chapter.
    pub open spec fn after_beat(self) -> NarrativeState {
        NarrativeState {
            chapter: if self.phase { self.chapter.spec_next() } else { self.chapter },
            elapsed: 0,
            phase: !self.phase,
        }
    }

    /// The state after the current beat if it is due, and the beat played.
    pub open spec fn spec_step(self, pacing: Pacing) -> (NarrativeState, Option<Beat>) {
        if self.due(pacing) {
            (self.after_beat(), Some(pacing.spec_beat(self.chapter, self.phase)))
        } else {
            (self, None)
        }
    }

    /// The state and the beat played, after `delta` more nanoseconds.
    pub open spec fn spec_tick(self, pacing: Pacing, delta: u64) -> (NarrativeState, Option<Beat>) {
        self.spec_advance(delta).spec_step(pacing)
    }

    /// Accumulates `delta` nanoseconds.
    pub fn advance(&mut self, delta: u64)
        ensures
            *final(self) == old(self).spec_advance(delta),
    {
        self.elapsed = self.elapsed.saturating_add(delta);
    }

    /// Plays the current beat if its wait has been exceeded, and returns it.
    pub fn spawn_logic(&mut self, pacing: &Pacing) -> (r: Option<Beat>)
        ensures
            (*final(self), r) == old(self).spec_step(*pacing),
    {
        let wait = pacing.wait(self.chapter, self.phase);
        if self.elapsed > wait {
            let beat = pacing.beat(self.chapter, self.phase);
            self.elapsed = 0;
            if self.phase {
                self.chapter = self.chapter.next();
                self.phase = false;
            } else {
                self.phase = true;
            }
            Some(beat)
        } else {
            None
        }
    }

    /// Accumulates `delta` nanoseconds, then plays the current beat if due.
    pub fn tick(&mut self, pacing: &Pacing, delta: u64) -> (r: Option<Beat>)
        ensures
            (*final(self), r) == old(self).spec_tick(*pacing, delta),
    {
        self.advance(delta);
        self.spawn_logic(pacing)
    }
}

impl GameState {
    /// The rank of the chapter in the order of play, from 0.
    pub open spec fn rank(self) -> nat {
        match self {
            GameState::Intro => 0,
            GameState::First => 1,
            GameState::Second => 2,
            GameState::Third => 3,
            GameState::Ending => 4,
        }
    }
}

/// The number of beats in a full play of the narrative.
pub const BEATS_PER_CYCLE: u64 = 10;

impl Pacing {
    /// The longest of the waits.
    pub open spec fn longest_wait(self) -> u64 {
        let a = if self.intro_wait >= self.first_wait { self.intro_wait } else { self.first_wait };
        let b = if a >= self.second_wait { a } else { self.second_wait };
        let c = if b >= self.third_wait { b } else { self.third_wait };
        if c >= self.ending_wait { c } else { self.ending_wait }
    }
}

impl NarrativeState {
    /// The rank of the next beat among the beats of a full play, from 0.
    pub open spec fn position(self) -> nat {
        self.chapter.rank() * 2 + if self.phase { 1nat } else { 0nat }
    }

    /// The state after one tick per element of `deltas`, in order.
    pub open spec fn run(self, pacing: Pacing, deltas: Seq<u64>) -> NarrativeState
        decreases deltas.len(),
    {
        if deltas.len() == 0 {
            self
        } else {
            self.spec_tick(pacing, deltas[0]).0.run(pacing, deltas.drop_first())
        }
    }

    /// What each of those ticks played.
    pub open spec fn beats(self, pacing: Pacing, deltas: Seq<u64>) -> Seq<Option<Beat>>
        decreases deltas.len(),
    {
        if deltas.len() == 0 {
            Seq::empty()
        } else {
            seq![self.spec_tick(pacing, deltas[0]).1] + self.spec_tick(
                pacing,
                deltas[0],
            ).0.beats(pacing, deltas.drop_first())
        }
    }
}

/// Waiting no longer than the current beat's wait plays nothing: only the
/// time accumulates.
pub proof fn lemma_no_beat_before_wait(s: NarrativeState, pacing: Pacing, delta: u64)
    requires
        s.elapsed + delta <= pacing.spec_wait(s.chapter, s.phase),
    ensures
        s.spec_tick(pacing, delta) == (
        NarrativeState { elapsed: (s.elapsed + delta) as u64, ..s },
        None::<Beat>,
    ),
{
}

/// From the start, a tick past the introduction's wait plays its growing
/// beat and stays in the introduction; a second one plays its closing beat
/// and enters the first chapter.
pub proof fn lemma_intro_two_beats(pacing: Pacing, d1: u64, d2: u64)
    requires
        d1 > pacing.intro_wait,
        d2 > pacing.intro_wait,
    ensures
        NarrativeState::spec_new().spec_tick(pacing, d1) == (
        NarrativeState { chapter: GameState::Intro, elapsed: 0, phase: true },
        Some(pacing.spec_beat(GameState::Intro, false)),
    ),
        (NarrativeState { chapter: GameState::Intro, elapsed: 0, phase: true }).spec_tick(
            pacing,
            d2,
        ) == (
        NarrativeState { chapter: GameState::First, elapsed: 0, phase: false },
        Some(pacing.spec_beat(GameState::Intro, true)),
    ),
{
}

proof fn lemma_driven_tick(s: NarrativeState, pacing: Pacing, delta: u64)
    requires
        delta > pacing.longest_wait(),
    ensures
        s.spec_tick(pacing, delta) == (s.after_beat(), Some(pacing.spec_beat(s.chapter, s.phase))),
        s.after_beat().position() == (s.position() + 1) % (BEATS_PER_CYCLE as nat),
        s.after_beat().elapsed == 0,
{
}

/// Ticks that each exceed every wait play one beat each, in the order of a
/// full play, from wherever the narrative stands.
pub proof fn lemma_driven_run(s: NarrativeState, pacing: Pacing, deltas: Seq<u64>)
    requires
        forall|i: int| 0 <= i < deltas.len() ==> deltas[i] > pacing.longest_wait(),
    ensures
        deltas.len() > 0 ==> s.run(pacing, deltas).elapsed == 0,
        s.run(pacing, deltas).position() == (s.position() + deltas.len()) % (BEATS_PER_CYCLE as nat),
        s.beats(pacing, deltas).len() == deltas.len(),
        forall|i: int|
            0 <= i < deltas.len() ==> #[trigger] s.beats(pacing, deltas)[i] is Some,
        forall|i: int|
            0 <= i < deltas.len() ==> (#[trigger] s.beats(pacing, deltas)[i]).unwrap().back_to_title
                == ((s.position() + i) % (BEATS_PER_CYCLE as int) == BEATS_PER_CYCLE - 1),
    decreases deltas.len(),
{
    if deltas.len() > 0 {
        let rest = deltas.drop_first();
        lemma_driven_tick(s, pacing, deltas[0]);
        let t = s.after_beat();
        assert forall|i: int| 0 <= i < rest.len() implies rest[i] > pacing.longest_wait() by {
            assert(rest[i] == deltas[i + 1]);
        }
        lemma_driven_run(t, pacing, rest);
        let b = s.beats(pacing, deltas);
        assert(b == seq![Some(pacing.spec_beat(s.chapter, s.phase))] + t.beats(pacing, rest));
        assert(s.position() < BEATS_PER_CYCLE as nat);
        assert forall|i: int| 0 <= i < deltas.len() implies #[trigger] b[i] is Some && b[i].unwrap().back_to_title
            == ((s.position() + i) % (BEATS_PER_CYCLE as int) == BEATS_PER_CYCLE - 1) by {
            if i > 0 {
                assert(b[i] == t.beats(pacing, rest)[i - 1]);
            }
        }
        assert((t.position() + rest.len()) % (BEATS_PER_CYCLE as nat) == (s.position() + deltas.len())
            % (BEATS_PER_CYCLE as nat)) by {
            assert(s.position() < BEATS_PER_CYCLE as nat);
        }
    } else {
        assert(s.position() < BEATS_PER_CYCLE as nat);
    }
}

/// Ticks that each exceed every wait bring the narrative, after one full
/// play of ten beats, back to the start of the introduction; the game goes
/// back to its first screen exactly once on the way, with the last beat,
/// which leaves the ending.
pub proof fn lemma_cycle_closes(pacing: Pacing, deltas: Seq<u64>)
    requires
        deltas.len() == BEATS_PER_CYCLE,
        forall|i: int| 0 <= i < deltas.len() ==> deltas[i] > pacing.longest_wait(),
    ensures
        NarrativeState::spec_new().run(pacing, deltas) == NarrativeState::spec_new(),
        forall|i: int|
            0 <= i < deltas.len() ==> #[trigger] NarrativeState::spec_new().beats(
                pacing,
                deltas,
            )[i] is Some,
        forall|i: int|
            0 <= i < deltas.len() ==> (#[trigger] NarrativeState::spec_new().beats(
                pacing,
                deltas,
            )[i]).unwrap().back_to_title == (i == BEATS_PER_CYCLE - 1),
{
    lemma_driven_run(NarrativeState::spec_new(), pacing, deltas);
}

} // verus!
