//! The menu: what its buttons do and how they look.
use vstd::prelude::*;

use crate::game::Game;
use crate::settings::INITIAL_LIVES;

verus! {

/// The menu's buttons.
#[derive(Clone, Copy, PartialEq, Eq, Debug, Structural)]
pub enum MenuButtonAction {
    Play,
    Quit,
}

/// How the pointer stands over a button.
#[derive(Clone, Copy, PartialEq, Eq, Debug, Structural)]
pub enum Interaction {
    Pressed,
    Hovered,
    Idle,
}

/// The shades a button is drawn in.
#[derive(Clone, Copy, PartialEq, Eq, Debug, Structural)]
pub enum ButtonColor {
    Normal,
    Hovered,
    HoveredPressed,
    Pressed,
}

/// The shade of a button: pressed, or selected and left alone, shows as
/// pressed; hovered shows as hovered, or hovered-pressed when selected.
pub open spec fn shade(interaction: Interaction, selected: bool) -> ButtonColor {
    match interaction {
        Interaction::Pressed => ButtonColor::Pressed,
        Interaction::Hovered => if selected {
            ButtonColor::HoveredPressed
        } else {
            ButtonColor::Hovered
        },
        Interaction::Idle => if selected {
            ButtonColor::Pressed
        } else {
            ButtonColor::Normal
        },
    }
}

pub fn button_color(interaction: Interaction, selected: bool) -> (c: ButtonColor)
    ensures
        c == shade(interaction, selected),
{
    match (interaction, selected) {
        (Interaction::Pressed, _) | (Interaction::Idle, true) => ButtonColor::Pressed,
        (Interaction::Hovered, true) => ButtonColor::HoveredPressed,
        (Interaction::Hovered, false) => ButtonColor::Hovered,
        (Interaction::Idle, false) => ButtonColor::Normal,
    }
}

impl Game {
    /// The label of the play button: "REPLAY" once a game has been played.
    pub fn play_label(&self) -> (label: &'static str)
        ensures
            self.flow.already_played ==> label@ == "REPLAY"@,
            !self.flow.already_played ==> label@ == "PLAY"@,
    {
        if self.flow.already_played {
            "REPLAY"
        } else {
            "PLAY"
        }
    }

    /// Acts on a pressed menu button: play starts a new game; tells whether
    /// the application should quit.
    pub fn menu_action(&mut self, action: MenuButtonAction) -> (quit: bool)
        requires
            old(self).wf(),
        ensures
            final(self).wf(),
            quit == (action is Quit),
            action is Quit ==> final(self).flow == old(self).flow && final(self).ledger == old(
                self,
            ).ledger,
            action is Play ==> {
                &&& final(self).flow.app is InGame
                &&& final(self).flow.game is Running
                &&& final(self).ledger.score == 0
                &&& final(self).ledger.lives == INITIAL_LIVES
                &&& final(self).world.aliens@.len() == 55
            },
    {
        match action {
            MenuButtonAction::Play => {
                self.start_round();
                false
            },
            MenuButtonAction::Quit => true,
        }
    }
}

} // verus!
