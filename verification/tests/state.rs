use invaders::geometry::{Point, Rect};
use invaders::state::{GameState, Layout, Transition};

fn state_layout() -> Layout {
    Layout {
        title: Rect { left: 200, top: 400, right: 1400, bottom: 640 },
        play_button: Rect { left: 300, top: 725, right: 1300, bottom: 975 },
        settings_button: Rect { left: 1456, top: 48, right: 1552, bottom: 144 },
        game_over_text: Rect { left: 480, top: 144, right: 1120, bottom: 456 },
        play_again_button: Rect { left: 480, top: 604, right: 1120, bottom: 796 },
        menu_button: Rect { left: 544, top: 864, right: 1056, bottom: 1056 },
    }
}

fn on_play() -> Point {
    Point { x: 800, y: 850 }
}

fn on_gear() -> Point {
    Point { x: 1500, y: 100 }
}

fn on_play_again() -> Point {
    Point { x: 800, y: 700 }
}

fn on_menu_button() -> Point {
    Point { x: 800, y: 900 }
}

fn nowhere() -> Point {
    Point { x: 5, y: 1195 }
}

#[test]
fn play_click_on_the_menu_starts_a_game() {
    let t = GameState::Menu.handle_click(&state_layout(), on_play());
    assert_eq!(t, Transition { state: GameState::Playing, reset: true });
}

#[test]
fn gear_click_on_the_menu_opens_the_settings() {
    let t = GameState::Menu.handle_click(&state_layout(), on_gear());
    assert_eq!(t, Transition { state: GameState::Settings, reset: false });
}

#[test]
fn other_clicks_on_the_menu_do_nothing() {
    let t = GameState::Menu.handle_click(&state_layout(), nowhere());
    assert_eq!(t, Transition { state: GameState::Menu, reset: false });
    // The play-again button's place means nothing on the menu.
    let t = GameState::Menu.handle_click(&state_layout(), on_play_again());
    assert_eq!(t, Transition { state: GameState::Menu, reset: false });
}

#[test]
fn play_button_goes_before_the_gear_where_they_overlap() {
    let mut layout = state_layout();
    layout.settings_button = layout.play_button;
    let t = GameState::Menu.handle_click(&layout, on_play());
    assert_eq!(t, Transition { state: GameState::Playing, reset: true });
}

#[test]
fn play_again_click_on_game_over_starts_a_game() {
    let t = GameState::GameOver.handle_click(&state_layout(), on_play_again());
    assert_eq!(t, Transition { state: GameState::Playing, reset: true });
}

#[test]
fn menu_click_on_game_over_leads_to_the_menu() {
    let t = GameState::GameOver.handle_click(&state_layout(), on_menu_button());
    assert_eq!(t, Transition { state: GameState::Menu, reset: false });
}

#[test]
fn other_clicks_on_game_over_do_nothing() {
    let t = GameState::GameOver.handle_click(&state_layout(), nowhere());
    assert_eq!(t, Transition { state: GameState::GameOver, reset: false });
    let t = GameState::GameOver.handle_click(&state_layout(), on_gear());
    assert_eq!(t, Transition { state: GameState::GameOver, reset: false });
}

#[test]
fn play_again_goes_before_the_menu_button_where_they_overlap() {
    let mut layout = state_layout();
    layout.menu_button = layout.play_again_button;
    let t = GameState::GameOver.handle_click(&layout, on_play_again());
    assert_eq!(t, Transition { state: GameState::Playing, reset: true });
}

#[test]
fn clicks_do_nothing_while_playing() {
    for at in [on_play(), on_gear(), on_play_again(), on_menu_button(), nowhere()] {
        let t = GameState::Playing.handle_click(&state_layout(), at);
        assert_eq!(t, Transition { state: GameState::Playing, reset: false });
    }
}

#[test]
fn nothing_leads_out_of_the_settings() {
    for at in [on_play(), on_gear(), on_play_again(), on_menu_button(), nowhere()] {
        let t = GameState::Settings.handle_click(&state_layout(), at);
        assert_eq!(t, Transition { state: GameState::Settings, reset: false });
    }
}

#[test]
fn button_edges_are_half_open() {
    let layout = state_layout();
    let t = GameState::Menu.handle_click(&layout, Point { x: 300, y: 725 });
    assert_eq!(t.state, GameState::Playing);
    let t = GameState::Menu.handle_click(&layout, Point { x: 1300, y: 725 });
    assert_eq!(t.state, GameState::Menu);
    let t = GameState::Menu.handle_click(&layout, Point { x: 1299, y: 974 });
    assert_eq!(t.state, GameState::Playing);
    let t = GameState::Menu.handle_click(&layout, Point { x: 1299, y: 975 });
    assert_eq!(t.state, GameState::Menu);
}
