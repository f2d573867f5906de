use invaders::game::{AppState, Game, GameState};
use invaders::menu::{button_color, ButtonColor, Interaction, MenuButtonAction};

#[test]
fn button_shades() {
    assert_eq!(button_color(Interaction::Pressed, false), ButtonColor::Pressed);
    assert_eq!(button_color(Interaction::Pressed, true), ButtonColor::Pressed);
    assert_eq!(button_color(Interaction::Idle, true), ButtonColor::Pressed);
    assert_eq!(button_color(Interaction::Hovered, true), ButtonColor::HoveredPressed);
    assert_eq!(button_color(Interaction::Hovered, false), ButtonColor::Hovered);
    assert_eq!(button_color(Interaction::Idle, false), ButtonColor::Normal);
}

#[test]
fn play_label_after_a_game() {
    let mut g = Game::new();
    assert_eq!(g.play_label(), "PLAY");
    g.flow.already_played = true;
    assert_eq!(g.play_label(), "REPLAY");
}

#[test]
fn menu_buttons() {
    let mut g = Game::new();
    assert!(g.menu_action(MenuButtonAction::Quit));
    assert_eq!(g.flow.app, AppState::Menu);
    assert!(!g.menu_action(MenuButtonAction::Play));
    assert_eq!(g.flow.app, AppState::InGame);
    assert_eq!(g.flow.game, GameState::Running);
    assert_eq!(g.world.aliens.len(), 55);
    assert_eq!(g.ledger.lives, 3);
}
