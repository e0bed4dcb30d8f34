//! The screens of the game and what the menu buttons do.

use vstd::prelude::*;

verus! {

/// The screens the game moves between.
#[derive(Clone, Copy, Debug, Hash, PartialEq, Eq, Structural)]
pub enum GameState {
    MainMenu,
    InGame,
    Paused,
    Settings,
    GameOver,
}

impl Default for GameState {
    fn default() -> (state: GameState)
        ensures
            state == GameState::MainMenu,
    {
        GameState::MainMenu
    }
}

/// The event of the player's death.
#[derive(Clone, Copy, Debug, Default, PartialEq, Eq)]
pub struct PlayerDied;

/// Tag of what belongs to a running game and goes when it ends.
#[derive(Clone, Copy, Debug, Default, PartialEq, Eq)]
pub struct GameplayRoot;

/// The screen that the settings screen leads back to.
#[derive(Clone, Copy, Debug, PartialEq, Eq)]
pub struct SettingsBackTarget(pub GameState);

impl Default for SettingsBackTarget {
    fn default() -> (target: SettingsBackTarget)
        ensures
            target == SettingsBackTarget(GameState::MainMenu),
    {
        SettingsBackTarget(GameState::MainMenu)
    }
}

/// The buttons of the main menu.
#[derive(Clone, Copy, Debug, PartialEq, Eq, Structural)]
pub enum MainBtn {
    NewGame,
    Settings,
    Quit,
}

/// The buttons of the pause menu.
#[derive(Clone, Copy, Debug, PartialEq, Eq, Structural)]
pub enum PauseBtn {
    Resume,
    Settings,
    MainMenu,
}

/// The button of the settings screen.
#[derive(Clone, Copy, Debug, PartialEq, Eq, Structural)]
pub enum SetBtn {
    Back,
}

/// The buttons of the game-over screen.
#[derive(Clone, Copy, Debug, PartialEq, Eq, Structural)]
pub enum OverBtn {
    TryAgain,
    MainMenu,
}

/// What the pointer does to a button.
#[derive(Clone, Copy, Debug, PartialEq, Eq, Structural)]
pub enum Interaction {
    Pressed,
    Hovered,
    Untouched,
}

/// A colour, each channel in hundredths.
#[derive(Clone, Copy, Debug, PartialEq, Eq, Structural)]
pub struct Rgb {
    pub red: u8,
    pub green: u8,
    pub blue: u8,
}

/// What a button asks for when the pointer changes on it.
#[derive(Clone, Copy, Debug, PartialEq, Eq)]
pub struct ButtonOutcome {
    /// The screen to go to.
    pub next: Option<GameState>,
    /// The screen that the settings screen is to lead back to.
    pub back_target: Option<GameState>,
    /// Whether to leave the game.
    pub quit: bool,
}

/// The outcome of a button that is not pressed: nothing.
pub open spec fn no_outcome() -> ButtonOutcome {
    ButtonOutcome { next: None, back_target: None, quit: false }
}

/// The outcome that only goes to a screen.
pub open spec fn go_to(state: GameState) -> ButtonOutcome {
    ButtonOutcome { next: Some(state), back_target: None, quit: false }
}

/// The outcome that opens the settings and remembers where from.
pub open spec fn open_settings(from: GameState) -> ButtonOutcome {
    ButtonOutcome { next: Some(GameState::Settings), back_target: Some(from), quit: false }
}

/// The colour of a button under the pointer: lightest while pressed, darker
/// while hovered, darkest at rest.
pub fn set_btn_color(interaction: Interaction) -> (colour: Rgb)
    ensures
        colour == (match interaction {
            Interaction::Pressed => Rgb { red: 40, green: 40, blue: 60 },
            Interaction::Hovered => Rgb { red: 25, green: 25, blue: 40 },
            Interaction::Untouched => Rgb { red: 15, green: 15, blue: 25 },
        }),
{
    match interaction {
        Interaction::Pressed => Rgb { red: 40, green: 40, blue: 60 },
        Interaction::Hovered => Rgb { red: 25, green: 25, blue: 40 },
        Interaction::Untouched => Rgb { red: 15, green: 15, blue: 25 },
    }
}

/// What a button of the main menu asks for: pressed, a new game starts, the
/// settings open with the main menu to return to, or the game quits.
pub fn main_menu_buttons(interaction: Interaction, button: MainBtn) -> (outcome: ButtonOutcome)
    ensures
        outcome == (if interaction == Interaction::Pressed {
            match button {
                MainBtn::NewGame => go_to(GameState::InGame),
                MainBtn::Settings => open_settings(GameState::MainMenu),
                MainBtn::Quit => ButtonOutcome { next: None, back_target: None, quit: true },
            }
        } else {
            no_outcome()
        }),
{
    if interaction == Interaction::Pressed {
        match button {
            MainBtn::NewGame => ButtonOutcome {
                next: Some(GameState::InGame),
                back_target: None,
                quit: false,
            },
            MainBtn::Settings => ButtonOutcome {
                next: Some(GameState::Settings),
                back_target: Some(GameState::MainMenu),
                quit: false,
            },
            MainBtn::Quit => ButtonOutcome { next: None, back_target: None, quit: true },
        }
    } else {
        ButtonOutcome { next: None, back_target: None, quit: false }
    }
}

/// The screen the settings' button leads to: pressed, the one the settings
/// were opened from.
pub fn settings_buttons(
    interaction: Interaction,
    button: SetBtn,
    back_target: SettingsBackTarget,
) -> (next: Option<GameState>)
    ensures
        next == (if interaction == Interaction::Pressed {
            Some(back_target.0)
        } else {
            None
        }),
{
    if interaction == Interaction::Pressed {
        match button {
            SetBtn::Back => Some(back_target.0),
        }
    } else {
        None
    }
}

/// What a button of the pause menu asks for: pressed, the game resumes, the
/// settings open with the pause menu to return to, or the main menu shows.
pub fn pause_menu_buttons(interaction: Interaction, button: PauseBtn) -> (outcome: ButtonOutcome)
    ensures
        outcome == (if interaction == Interaction::Pressed {
            match button {
                PauseBtn::Resume => go_to(GameState::InGame),
                PauseBtn::Settings => open_settings(GameState::Paused),
                PauseBtn::MainMenu => go_to(GameState::MainMenu),
            }
        } else {
            no_outcome()
        }),
{
    if interaction == Interaction::Pressed {
        match button {
            PauseBtn::Resume => ButtonOutcome {
                next: Some(GameState::InGame),
                back_target: None,
                quit: false,
            },
            PauseBtn::Settings => ButtonOutcome {
                next: Some(GameState::Settings),
                back_target: Some(GameState::Paused),
                quit: false,
            },
            PauseBtn::MainMenu => ButtonOutcome {
                next: Some(GameState::MainMenu),
                back_target: None,
                quit: false,
            },
        }
    } else {
        ButtonOutcome { next: None, back_target: None, quit: false }
    }
}

/// The screen a button of the game-over screen leads to: pressed, a new
/// game or the main menu.
pub fn game_over_buttons(interaction: Interaction, button: OverBtn) -> (next: Option<GameState>)
    ensures
        next == (if interaction == Interaction::Pressed {
            Some(
                match button {
                    OverBtn::TryAgain => GameState::InGame,
                    OverBtn::MainMenu => GameState::MainMenu,
                },
            )
        } else {
            None
        }),
{
    if interaction == Interaction::Pressed {
        match button {
            OverBtn::TryAgain => Some(GameState::InGame),
            OverBtn::MainMenu => Some(GameState::MainMenu),
        }
    } else {
        None
    }
}

/// Escape pauses a running game.
pub fn esc_to_pause(state: GameState, escape_pressed: bool) -> (next: Option<GameState>)
    ensures
        next == (if state == GameState::InGame && escape_pressed {
            Some(GameState::Paused)
        } else {
            None
        }),
{
    if state == GameState::InGame && escape_pressed {
        Some(GameState::Paused)
    } else {
        None
    }
}

/// Escape resumes a paused game.
pub fn esc_to_resume(state: GameState, escape_pressed: bool) -> (next: Option<GameState>)
    ensures
        next == (if state == GameState::Paused && escape_pressed {
            Some(GameState::InGame)
        } else {
            None
        }),
{
    if state == GameState::Paused && escape_pressed {
        Some(GameState::InGame)
    } else {
        None
    }
}

/// The player's death ends the game, however many deaths were reported.
pub fn to_game_over_on_death(deaths: usize) -> (next: Option<GameState>)
    ensures
        next == (if deaths > 0 {
            Some(GameState::GameOver)
        } else {
            None
        }),
{
    if deaths > 0 {
        Some(GameState::GameOver)
    } else {
        None
    }
}

/// Whether the game's clock stands still: exactly while the game is paused.
pub fn pause_time(state: GameState) -> (paused: bool)
    ensures
        paused == (state == GameState::Paused),
{
    state == GameState::Paused
}

/// What to do with the world on entering a screen.
#[derive(Clone, Copy, Debug, PartialEq, Eq)]
pub struct WorldChange {
    /// Spawn map, player, camera and enemies.
    pub spawn_world: bool,
    /// Remove everything that belongs to the running game.
    pub despawn_gameplay: bool,
    /// Whether the world counts as loaded afterwards.
    pub world_loaded: bool,
}

/// What becomes of the world on entering `state`. A game that is entered
/// spawns its world unless it is loaded already; the main menu and the
/// game-over screen remove it; the other screens leave it alone.
pub fn on_enter_world(state: GameState, world_loaded: bool) -> (change: WorldChange)
    ensures
        change == (match state {
            GameState::InGame => WorldChange {
                spawn_world: !world_loaded,
                despawn_gameplay: false,
                world_loaded: true,
            },
            GameState::MainMenu | GameState::GameOver => WorldChange {
                spawn_world: false,
                despawn_gameplay: true,
                world_loaded: false,
            },
            _ => WorldChange { spawn_world: false, despawn_gameplay: false, world_loaded },
        }),
{
    match state {
        GameState::InGame => WorldChange {
            spawn_world: !world_loaded,
            despawn_gameplay: false,
            world_loaded: true,
        },
        GameState::MainMenu | GameState::GameOver => WorldChange {
            spawn_world: false,
            despawn_gameplay: true,
            world_loaded: false,
        },
        _ => WorldChange { spawn_world: false, despawn_gameplay: false, world_loaded },
    }
}

} // verus!
