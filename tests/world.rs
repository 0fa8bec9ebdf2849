use dreamwalk::narrative::{Line, Pacing, Request};
use dreamwalk::pairing::{Contact, JointPairing};
use dreamwalk::population::{
    despawn_everyone, make_title_animation, spawn_item, spawn_level, spawn_npc, spawn_popup,
    NpcLook, Tag, ITEM_TILES,
};
use dreamwalk::screen::{handle_title_action, Screen, TitleAction, TitleOutcome};

#[test]
fn one_entity_two_partners_gets_one_tether() {
    let mut p = JointPairing::new();
    let links = p.create_distance_joints(&vec![Contact { entity: 1, partners: vec![2, 3] }]);
    assert_eq!(links, vec![(1, 2)]);
    assert!(p.is_linked(1));
    assert!(p.is_linked(2));
    assert!(!p.is_linked(3));
}

#[test]
fn tethered_entities_are_never_tethered_again() {
    let mut p = JointPairing::new();
    p.create_distance_joints(&vec![Contact { entity: 1, partners: vec![2] }]);
    let links = p.create_distance_joints(&vec![
        Contact { entity: 1, partners: vec![3] },
        Contact { entity: 3, partners: vec![2, 4] },
        Contact { entity: 4, partners: vec![3, 5] },
    ]);
    assert_eq!(links, vec![(3, 4)]);
    assert!(!p.is_linked(5));
}

#[test]
fn no_tether_without_free_partner() {
    let mut p = JointPairing::new();
    let links = p.create_distance_joints(&vec![
        Contact { entity: 7, partners: vec![7] },
        Contact { entity: 8, partners: vec![] },
    ]);
    assert!(links.is_empty());
    assert!(!p.is_linked(7));
}

#[test]
fn later_partner_taken_when_earlier_is_busy() {
    let mut p = JointPairing::new();
    let links = p.create_distance_joints(&vec![
        Contact { entity: 1, partners: vec![2] },
        Contact { entity: 3, partners: vec![2, 1, 4] },
    ]);
    assert_eq!(links, vec![(1, 2), (3, 4)]);
}

#[test]
fn sweep_removes_population_only() {
    let entities = vec![
        (10, Tag::Player),
        (11, Tag::Npc),
        (12, Tag::Item),
        (13, Tag::TitleAnimation),
        (14, Tag::FacePopUp),
        (15, Tag::Item),
    ];
    assert_eq!(despawn_everyone(&entities), vec![11, 12, 14, 15]);
    assert_eq!(despawn_everyone(&vec![]), Vec::<u64>::new());
}

#[test]
fn level_setup_requests() {
    let r = spawn_level(&Pacing::standard());
    assert_eq!(r.len(), 31);
    assert_eq!(r[0], Request::SpawnPlayer);
    assert!(r[1..].iter().all(|x| *x == Request::SpawnItem));
}

#[test]
fn npc_looks_by_roll() {
    assert_eq!(NpcLook::from_roll(1), NpcLook::Npc1);
    assert_eq!(NpcLook::from_roll(3), NpcLook::Npc3);
    assert_eq!(NpcLook::from_roll(5), NpcLook::Npc5);
    assert_eq!(NpcLook::from_roll(0), NpcLook::Npc1);
    assert_eq!(NpcLook::from_roll(9), NpcLook::Npc1);
}

#[test]
fn spawned_entities_start_on_frame_zero() {
    for _ in 0..20 {
        let npc = spawn_npc();
        assert_eq!(npc.animation.get_atlas_index(), 0);
        let (a, b) = spawn_item();
        assert!(a < ITEM_TILES && b < ITEM_TILES);
    }
    let mut popup = spawn_popup();
    assert_eq!(popup.line, Line::Greeting);
    for _ in 0..3 {
        popup.animation.update_timer(500_000_000);
    }
    assert_eq!(popup.animation.get_atlas_index(), 0);
    let mut title = make_title_animation();
    title.update_timer(500_000_000);
    assert_eq!(title.get_atlas_index(), 1);
}

#[test]
fn title_buttons() {
    assert_eq!(handle_title_action(TitleAction::Play), TitleOutcome::Show(Screen::Playing));
    assert_eq!(handle_title_action(TitleAction::Credits), TitleOutcome::Show(Screen::Credits));
    assert_eq!(handle_title_action(TitleAction::Exit), TitleOutcome::Exit);
}

#[test]
fn item_tiles_and_npc_looks_vary() {
    let mut tiles = std::collections::HashSet::new();
    let mut looks = Vec::new();
    for _ in 0..200 {
        let (a, b) = spawn_item();
        tiles.insert(a);
        tiles.insert(b);
        let look = spawn_npc().look;
        if !looks.contains(&look) {
            looks.push(look);
        }
    }
    assert!(tiles.len() > 1);
    assert!(looks.len() > 1);
}
