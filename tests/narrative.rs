use dreamwalk::narrative::{
    Beat, GameState, Line, NarrativeState, Pacing, Request, FIRST_WAIT, INTRO_WAIT, SECOND,
};

fn count(requests: &[Request], r: Request) -> usize {
    requests.iter().filter(|x| **x == r).count()
}

#[test]
fn intro_plays_two_beats_then_enters_first_chapter() {
    let pacing = Pacing::standard();
    let mut s = NarrativeState::new();
    assert_eq!(s.tick(&pacing, INTRO_WAIT), None);
    assert_eq!(s.chapter, GameState::Intro);
    assert!(!s.phase);
    let beat = s.tick(&pacing, 1).unwrap();
    assert_eq!(s, NarrativeState { chapter: GameState::Intro, elapsed: 0, phase: true });
    assert!(beat.popup);
    assert_eq!(beat.items, 30);
    assert_eq!(beat.line, Some(Line::HelpMe));
    assert_eq!(beat.next_chapter, None);
    let beat = s.tick(&pacing, INTRO_WAIT + 1).unwrap();
    assert_eq!(s, NarrativeState { chapter: GameState::First, elapsed: 0, phase: false });
    assert_eq!(beat.items, 20);
    assert_eq!(beat.line, Some(Line::DontLeave));
    assert_eq!(beat.next_chapter, Some(GameState::First));
}

#[test]
fn first_chapter_growing_beat() {
    let pacing = Pacing::standard();
    let mut s = NarrativeState { chapter: GameState::First, elapsed: 0, phase: false };
    let beat = s.tick(&pacing, FIRST_WAIT + 1).unwrap();
    let requests = beat.requests();
    assert_eq!(count(&requests, Request::DespawnEveryone), 1);
    assert_eq!(requests[0], Request::DespawnEveryone);
    assert_eq!(count(&requests, Request::SpawnNPC), 14);
    assert_eq!(count(&requests, Request::SpawnItem), 30);
    assert_eq!(count(&requests, Request::SpawnPopUp), 0);
    assert_eq!(count(&requests, Request::SetText(Line::WontGetFar)), 1);
    assert_eq!(requests.len(), 46);
    assert!(s.phase);
    assert_eq!(s.chapter, GameState::First);
    assert_eq!(s.elapsed, 0);
}

#[test]
fn full_cycle_returns_to_intro_with_one_title_request() {
    let pacing = Pacing::standard();
    let mut s = NarrativeState::new();
    let mut titles = 0;
    let mut chapters = Vec::new();
    for _ in 0..10 {
        let beat = s.tick(&pacing, 21 * SECOND).unwrap();
        titles += count(&beat.requests(), Request::ShowTitle);
        chapters.push(s.chapter);
    }
    assert_eq!(s, NarrativeState::new());
    assert_eq!(titles, 1);
    assert_eq!(
        chapters,
        vec![
            GameState::Intro,
            GameState::First,
            GameState::First,
            GameState::Second,
            GameState::Second,
            GameState::Third,
            GameState::Third,
            GameState::Ending,
            GameState::Ending,
            GameState::Intro,
        ]
    );
}

#[test]
fn each_beat_of_the_table() {
    let p = Pacing::standard();
    let b = p.beat(GameState::Second, false);
    assert_eq!((b.npcs, b.popup, b.items, b.line), (99, false, 30, Some(Line::AsDoI)));
    let b = p.beat(GameState::Second, true);
    assert_eq!((b.npcs, b.items, b.line, b.next_chapter), (0, 20, Some(Line::CantEscape), Some(GameState::Third)));
    let b = p.beat(GameState::Third, false);
    assert_eq!((b.npcs, b.popup, b.items, b.line), (199, true, 30, None));
    let b = p.beat(GameState::Third, true);
    assert_eq!((b.npcs, b.items, b.line, b.next_chapter), (0, 0, Some(Line::SpiritsWalk), Some(GameState::Ending)));
    let b = p.beat(GameState::Ending, false);
    assert_eq!((b.npcs, b.popup, b.items, b.line), (14, false, 30, Some(Line::UntilWake)));
    let b = p.beat(GameState::Ending, true);
    assert_eq!(b, Beat { npcs: 0, popup: false, items: 0, line: None, next_chapter: Some(GameState::Intro), back_to_title: true });
    assert_eq!(b.requests(), vec![Request::DespawnEveryone, Request::ShowTitle]);
    let b = p.beat(GameState::First, true);
    assert_eq!((b.items, b.line, b.back_to_title), (20, Some(Line::Trapped), false));
}

#[test]
fn request_order_within_a_beat() {
    let p = Pacing::standard();
    let r = p.beat(GameState::Third, false).requests();
    assert_eq!(r.len(), 1 + 199 + 1 + 30);
    assert_eq!(r[0], Request::DespawnEveryone);
    assert_eq!(r[1], Request::SpawnNPC);
    assert_eq!(r[199], Request::SpawnNPC);
    assert_eq!(r[200], Request::SpawnPopUp);
    assert_eq!(r[201], Request::SpawnItem);
    assert_eq!(r[230], Request::SpawnItem);
    let r = p.beat(GameState::Intro, false).requests();
    assert_eq!(r[1], Request::SpawnPopUp);
    assert_eq!(r[r.len() - 1], Request::SetText(Line::HelpMe));
}

#[test]
fn waits_of_each_chapter() {
    let p = Pacing::standard();
    assert_eq!(p.wait(GameState::Intro, false), SECOND);
    assert_eq!(p.wait(GameState::First, true), 2 * SECOND);
    assert_eq!(p.wait(GameState::Second, true), SECOND);
    assert_eq!(p.wait(GameState::Third, false), 0);
    assert_eq!(p.wait(GameState::Third, true), 2 * SECOND);
    assert_eq!(p.wait(GameState::Ending, false), 0);
    assert_eq!(p.wait(GameState::Ending, true), 20 * SECOND);
}

#[test]
fn wait_must_be_exceeded_not_reached() {
    let p = Pacing::standard();
    let mut s = NarrativeState { chapter: GameState::Ending, elapsed: 0, phase: true };
    assert_eq!(s.tick(&p, 20 * SECOND), None);
    assert_eq!(s.elapsed, 20 * SECOND);
    assert!(s.tick(&p, 1).is_some());
    assert_eq!(s, NarrativeState::new());
}

#[test]
fn third_chapter_grows_at_once() {
    let p = Pacing::standard();
    let mut s = NarrativeState { chapter: GameState::Third, elapsed: 0, phase: false };
    assert_eq!(s.spawn_logic(&p), None);
    assert!(s.tick(&p, 1).is_some());
    assert!(s.phase);
}

#[test]
fn accumulated_time_saturates() {
    let mut s = NarrativeState { chapter: GameState::Intro, elapsed: u64::MAX - 1, phase: false };
    s.advance(10);
    assert_eq!(s.elapsed, u64::MAX);
}

#[test]
fn tunable_pacing_is_followed() {
    let p = Pacing { intro_wait: 5, grow_items: 3, ..Pacing::standard() };
    let mut s = NarrativeState::new();
    assert_eq!(s.tick(&p, 5), None);
    let beat = s.tick(&p, 1).unwrap();
    assert_eq!(count(&beat.requests(), Request::SpawnItem), 3);
}

#[test]
fn chapters_follow_in_order() {
    assert_eq!(GameState::Intro.next(), GameState::First);
    assert_eq!(GameState::Third.next(), GameState::Ending);
    assert_eq!(GameState::Ending.next(), GameState::Intro);
}

#[test]
fn line_texts() {
    assert_eq!(Line::HelpMe.text(), "You should help me find my way");
    assert_eq!(Line::DontLeave.text(), "Hey! Don't Leave");
    assert_eq!(Line::UntilWake.text(), "Until you wake up");
    assert_eq!(Line::Greeting.text(), "Hello, dreamer, again.");
}
