//! The game's screens and the choices offered on the title screen.

use vstd::prelude::*;

verus! {

/// The screens of the game.
#[derive(Clone, Copy, Debug, PartialEq, Eq, Structural)]
pub enum Screen {
    Splash,
    Title,
    Credits,
    Playing,
}

/// The buttons of the title screen.
#[derive(Clone, Copy, Debug, PartialEq, Eq, Structural)]
pub enum TitleAction {
    Play,
    Credits,
    Exit,
}

/// What pressing a button of the title screen leads to.
#[derive(Clone, Copy, Debug, PartialEq, Eq, Structural)]
pub enum TitleOutcome {
    Show(Screen),
    Exit,
}

/// Play starts the game, Credits shows the credits, Exit quits.
pub fn handle_title_action(action: TitleAction) -> (r: TitleOutcome)
    ensures
        r == match action {
            TitleAction::Play => TitleOutcome::Show(Screen::Playing),
            TitleAction::Credits => TitleOutcome::Show(Screen::Credits),
            TitleAction::Exit => TitleOutcome::Exit,
        },
{
    match action {
        TitleAction::Play => TitleOutcome::Show(Screen::Playing),
        TitleAction::Credits => TitleOutcome::Show(Screen::Credits),
        TitleAction::Exit => TitleOutcome::Exit,
    }
}

} // verus!
