use redeemer::gameflow::{
    esc_to_pause, esc_to_resume, game_over_buttons, main_menu_buttons, on_enter_world,
    pause_menu_buttons, pause_time, set_btn_color, settings_buttons, to_game_over_on_death,
    ButtonOutcome, GameState, Interaction, MainBtn, OverBtn, PauseBtn, Rgb, SetBtn,
    SettingsBackTarget, WorldChange,
};

const NOTHING: ButtonOutcome = ButtonOutcome { next: None, back_target: None, quit: false };

#[test]
fn game_starts_in_the_main_menu() {
    assert_eq!(GameState::default(), GameState::MainMenu);
    assert_eq!(SettingsBackTarget::default(), SettingsBackTarget(GameState::MainMenu));
}

#[test]
fn button_colours_by_interaction() {
    assert_eq!(set_btn_color(Interaction::Pressed), Rgb { red: 40, green: 40, blue: 60 });
    assert_eq!(set_btn_color(Interaction::Hovered), Rgb { red: 25, green: 25, blue: 40 });
    assert_eq!(set_btn_color(Interaction::Untouched), Rgb { red: 15, green: 15, blue: 25 });
}

#[test]
fn main_menu_buttons_act_only_when_pressed() {
    for button in [MainBtn::NewGame, MainBtn::Settings, MainBtn::Quit] {
        assert_eq!(main_menu_buttons(Interaction::Hovered, button), NOTHING);
        assert_eq!(main_menu_buttons(Interaction::Untouched, button), NOTHING);
    }
    assert_eq!(
        main_menu_buttons(Interaction::Pressed, MainBtn::NewGame),
        ButtonOutcome { next: Some(GameState::InGame), ..NOTHING }
    );
    assert_eq!(
        main_menu_buttons(Interaction::Pressed, MainBtn::Settings),
        ButtonOutcome { next: Some(GameState::Settings), back_target: Some(GameState::MainMenu), quit: false }
    );
    assert_eq!(main_menu_buttons(Interaction::Pressed, MainBtn::Quit), ButtonOutcome { quit: true, ..NOTHING });
}

#[test]
fn pause_menu_buttons_act_only_when_pressed() {
    assert_eq!(pause_menu_buttons(Interaction::Hovered, PauseBtn::Resume), NOTHING);
    assert_eq!(
        pause_menu_buttons(Interaction::Pressed, PauseBtn::Resume),
        ButtonOutcome { next: Some(GameState::InGame), ..NOTHING }
    );
    assert_eq!(
        pause_menu_buttons(Interaction::Pressed, PauseBtn::Settings),
        ButtonOutcome { next: Some(GameState::Settings), back_target: Some(GameState::Paused), quit: false }
    );
    assert_eq!(
        pause_menu_buttons(Interaction::Pressed, PauseBtn::MainMenu),
        ButtonOutcome { next: Some(GameState::MainMenu), ..NOTHING }
    );
}

#[test]
fn settings_lead_back_to_where_they_were_opened() {
    let from_pause = SettingsBackTarget(GameState::Paused);
    assert_eq!(settings_buttons(Interaction::Pressed, SetBtn::Back, from_pause), Some(GameState::Paused));
    assert_eq!(settings_buttons(Interaction::Hovered, SetBtn::Back, from_pause), None);
    assert_eq!(
        settings_buttons(Interaction::Pressed, SetBtn::Back, SettingsBackTarget::default()),
        Some(GameState::MainMenu)
    );
}

#[test]
fn game_over_buttons_lead_to_a_new_game_or_the_menu() {
    assert_eq!(game_over_buttons(Interaction::Pressed, OverBtn::TryAgain), Some(GameState::InGame));
    assert_eq!(game_over_buttons(Interaction::Pressed, OverBtn::MainMenu), Some(GameState::MainMenu));
    assert_eq!(game_over_buttons(Interaction::Untouched, OverBtn::MainMenu), None);
}

#[test]
fn escape_toggles_between_game_and_pause() {
    assert_eq!(esc_to_pause(GameState::InGame, true), Some(GameState::Paused));
    assert_eq!(esc_to_pause(GameState::InGame, false), None);
    assert_eq!(esc_to_pause(GameState::Paused, true), None);
    assert_eq!(esc_to_resume(GameState::Paused, true), Some(GameState::InGame));
    assert_eq!(esc_to_resume(GameState::Paused, false), None);
    assert_eq!(esc_to_resume(GameState::MainMenu, true), None);
}

#[test]
fn death_leads_to_game_over() {
    assert_eq!(to_game_over_on_death(0), None);
    assert_eq!(to_game_over_on_death(1), Some(GameState::GameOver));
    assert_eq!(to_game_over_on_death(3), Some(GameState::GameOver));
}

#[test]
fn clock_stands_still_only_while_paused() {
    assert!(pause_time(GameState::Paused));
    for state in [GameState::MainMenu, GameState::InGame, GameState::Settings, GameState::GameOver] {
        assert!(!pause_time(state));
    }
}

#[test]
fn world_is_spawned_once_and_removed_with_the_game() {
    assert_eq!(
        on_enter_world(GameState::InGame, false),
        WorldChange { spawn_world: true, despawn_gameplay: false, world_loaded: true }
    );
    assert_eq!(
        on_enter_world(GameState::InGame, true),
        WorldChange { spawn_world: false, despawn_gameplay: false, world_loaded: true }
    );
    for state in [GameState::MainMenu, GameState::GameOver] {
        assert_eq!(
            on_enter_world(state, true),
            WorldChange { spawn_world: false, despawn_gameplay: true, world_loaded: false }
        );
    }
    assert_eq!(
        on_enter_world(GameState::Paused, true),
        WorldChange { spawn_world: false, despawn_gameplay: false, world_loaded: true }
    );
    assert_eq!(
        on_enter_world(GameState::Settings, false),
        WorldChange { spawn_world: false, despawn_gameplay: false, world_loaded: false }
    );
}
