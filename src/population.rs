//! The population of the scene: what each kind of entity is spawned with,
//! and which entities a sweep of the population removes.

use crate::animation::{AnimationView, BasicAnimation, BASIC_INTERVAL};
use crate::narrative::{push_copies, repeat, Line, Pacing, Request};
use rand::Rng;
use vstd::prelude::*;

verus! {

/// Frames of a spirit's animation.
pub const NPC_FRAMES: usize = 2;

/// Frames of the dreamer's pop-up face.
pub const POPUP_FRAMES: usize = 3;

/// Frames of the title screen's animation.
pub const TITLE_FRAMES: usize = 2;

/// Tiles of the item sheet.
pub const ITEM_TILES: u32 = 9;

/// Looks a spirit can be drawn with.
pub const NPC_LOOKS: u32 = 5;

/// Relies on rand's `Rng::gen_range` on the thread's generator: a value drawn
/// from `low..high`, which must not be empty.
#[verifier::external_body]
fn draw(low: u32, high: u32) -> (r: u32)
    requires
        low < high,
    ensures
        low <= r < high,
{
    rand::thread_rng().gen_range(low..high)
}

/// The kind of an entity of the scene.
#[derive(Clone, Copy, Debug, PartialEq, Eq, Structural)]
pub enum Tag {
    Player,
    Npc,
    Item,
    FacePopUp,
    TitleAnimation,
}

impl Tag {
    /// Whether entities of this kind belong to the population that a sweep removes.
    pub open spec fn spec_is_population(self) -> bool {
        self == Tag::Npc || self == Tag::Item || self == Tag::FacePopUp
    }

    /// Whether a sweep of the population removes entities of this kind.
    pub fn is_population(&self) -> (r: bool)
        ensures
            r == self.spec_is_population(),
    {
        match self {
            Tag::Npc | Tag::Item | Tag::FacePopUp => true,
            Tag::Player | Tag::TitleAnimation => false,
        }
    }
}

/// The entities of `entities` that belong to the population, in order.
pub open spec fn population(entities: Seq<(u64, Tag)>) -> Seq<u64>
    decreases entities.len(),
{
    if entities.len() == 0 {
        Seq::empty()
    } else {
        let last = entities.last();
        population(entities.drop_last()) + if last.1.spec_is_population() {
            seq![last.0]
        } else {
            Seq::empty()
        }
    }
}

/// The entities that a sweep of the population removes: every spirit, item
/// and pop-up, whichever beat spawned it.
pub fn despawn_everyone(entities: &Vec<(u64, Tag)>) -> (r: Vec<u64>)
    ensures
        r@ == population(entities@),
{
    let mut r: Vec<u64> = Vec::new();
    let mut i: usize = 0;
    while i < entities.len()
        invariant
            0 <= i <= entities@.len(),
            r@ == population(entities@.take(i as int)),
        decreases entities.len() - i,
    {
        let (id, tag) = entities[i];
        if tag.is_population() {
            r.push(id);
        }
        proof {
            assert(entities@.take(i + 1).drop_last() =~= entities@.take(i as int));
            assert(entities@.take(i + 1).last() == entities@[i as int]);
        }
        i = i + 1;
    }
    proof {
        assert(entities@.take(entities@.len() as int) =~= entities@);
    }
    r
}

/// The requests that set up the level: the player, then the first items.
pub fn spawn_level(pacing: &Pacing) -> (r: Vec<Request>)
    ensures
        r@ == seq![Request::SpawnPlayer] + repeat(Request::SpawnItem, pacing.grow_items as nat),
{
    let mut r: Vec<Request> = Vec::new();
    r.push(Request::SpawnPlayer);
    push_copies(&mut r, Request::SpawnItem, pacing.grow_items);
    r
}

/// The sprite sheets a spirit can be drawn with.
#[derive(Clone, Copy, Debug, PartialEq, Eq, Structural)]
pub enum NpcLook {
    Npc1,
    Npc2,
    Npc3,
    Npc4,
    Npc5,
}

impl NpcLook {
    pub open spec fn spec_from_roll(roll: u32) -> NpcLook {
        if roll == 2 {
            NpcLook::Npc2
        } else if roll == 3 {
            NpcLook::Npc3
        } else if roll == 4 {
            NpcLook::Npc4
        } else if roll == 5 {
            NpcLook::Npc5
        } else {
            NpcLook::Npc1
        }
    }

    /// The look numbered `roll`, from 1; the first look for any other number.
    pub fn from_roll(roll: u32) -> (r: NpcLook)
        ensures
            r == NpcLook::spec_from_roll(roll),
    {
        match roll {
            2 => NpcLook::Npc2,
            3 => NpcLook::Npc3,
            4 => NpcLook::Npc4,
            5 => NpcLook::Npc5,
            _ => NpcLook::Npc1,
        }
    }
}

/// A spirit about to be spawned.
#[derive(Clone, Copy, Debug)]
pub struct NpcSpawn {
    pub look: NpcLook,
    pub animation: BasicAnimation,
}

/// A spirit with a look drawn at random and its animation at its first frame.
pub fn spawn_npc() -> (r: NpcSpawn)
    ensures
        r.animation@ == AnimationView::fresh(BASIC_INTERVAL as nat, NPC_FRAMES as nat),
        r.animation@.wf(),
{
    let roll = draw(1, NPC_LOOKS + 1);
    NpcSpawn { look: NpcLook::from_roll(roll), animation: BasicAnimation::new(NPC_FRAMES) }
}

/// The item tiles of one scattering: two items, each showing a tile drawn at
/// random from the item sheet.
pub fn spawn_item() -> (r: (u32, u32))
    ensures
        r.0 < ITEM_TILES,
        r.1 < ITEM_TILES,
{
    let first = draw(0, ITEM_TILES);
    let second = draw(0, ITEM_TILES);
    (first, second)
}

/// The dreamer's face about to pop up.
#[derive(Clone, Copy, Debug)]
pub struct PopUpSpawn {
    pub line: Line,
    pub animation: BasicAnimation,
}

/// The pop-up face, greeting the player, with its animation at its first frame.
pub fn spawn_popup() -> (r: PopUpSpawn)
    ensures
        r.line == Line::Greeting,
        r.animation@ == AnimationView::fresh(BASIC_INTERVAL as nat, POPUP_FRAMES as nat),
        r.animation@.wf(),
{
    PopUpSpawn { line: Line::Greeting, animation: BasicAnimation::new(POPUP_FRAMES) }
}

/// The title screen's animation at its first frame.
pub fn make_title_animation() -> (r: BasicAnimation)
    ensures
        r@ == AnimationView::fresh(BASIC_INTERVAL as nat, TITLE_FRAMES as nat),
        r@.wf(),
{
    BasicAnimation::new(TITLE_FRAMES)
}

} // verus!
