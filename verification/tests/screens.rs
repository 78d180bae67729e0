use game_shell::game::{GameInput, Update, UpdateArgs};
use game_shell::geom::{Size, Vec2};
use game_shell::input::{Button, Input, Key};
use game_shell::geom::Color;
use game_shell::screens::overworld::{Hero, OverworldScreen, HERO_SIZE};
use game_shell::screens::{
    AfterUpdateInfo, ArgValue, GameScreen, GameScreens, GameScreensInner, ScreenError,
    MENU_SCREEN_KEY, OVERWORLD_SCREEN_KEY,
};

fn size() -> Size {
    Size { width: 800, height: 600 }
}

fn key_of(s: &GameScreensInner) -> usize {
    match s {
        GameScreensInner::MainMenu(_) => MENU_SCREEN_KEY,
        GameScreensInner::Overworld(_) => OVERWORLD_SCREEN_KEY,
    }
}

#[test]
fn registry_starts_on_the_main_menu() {
    let gs = GameScreens::new(size());
    assert_eq!(key_of(gs.get_current_screen()), MENU_SCREEN_KEY);
}

#[test]
fn space_on_menu_then_tick_reaches_fresh_overworld() {
    let mut gs = GameScreens::new(size());
    gs.input(&Input::Press(Button::Keyboard(Key::Space)));
    gs.update(&UpdateArgs { dt_ms: 16 }, size());
    match gs.get_current_screen() {
        GameScreensInner::Overworld(o) => {
            assert_eq!(o.hero.topleft, Vec2 { x: 0, y: 0 });
            assert_eq!(o.hero.curr_velocity, Vec2 { x: 0, y: 0 });
            assert_eq!(o.next_screen, None);
        },
        GameScreensInner::MainMenu(_) => panic!("transition to the overworld did not happen"),
    }
}

#[test]
fn space_on_overworld_then_tick_returns_to_menu() {
    let mut gs = GameScreens::new(size());
    gs.input(&Input::Press(Button::Keyboard(Key::Space)));
    gs.update(&UpdateArgs { dt_ms: 16 }, size());
    gs.input(&Input::Press(Button::Keyboard(Key::Space)));
    gs.update(&UpdateArgs { dt_ms: 16 }, size());
    assert_eq!(key_of(gs.get_current_screen()), MENU_SCREEN_KEY);
}

#[test]
fn transition_discards_the_previous_screen_state() {
    let mut gs = GameScreens::new(size());
    gs.input(&Input::Press(Button::Keyboard(Key::Space)));
    gs.update(&UpdateArgs { dt_ms: 16 }, size());
    // Move the hero, leave for the menu, come back: the overworld must be a
    // fresh, default-initialized instance.
    gs.input(&Input::Press(Button::Keyboard(Key::Right)));
    gs.update(&UpdateArgs { dt_ms: 100 }, size());
    gs.input(&Input::Press(Button::Keyboard(Key::Space)));
    gs.update(&UpdateArgs { dt_ms: 16 }, size());
    assert_eq!(key_of(gs.get_current_screen()), MENU_SCREEN_KEY);
    gs.input(&Input::Press(Button::Keyboard(Key::Space)));
    gs.update(&UpdateArgs { dt_ms: 16 }, size());
    match gs.get_current_screen() {
        GameScreensInner::Overworld(o) => {
            assert_eq!(o.hero.topleft, Vec2 { x: 0, y: 0 });
            assert_eq!(o.hero.curr_velocity, Vec2 { x: 0, y: 0 });
        },
        GameScreensInner::MainMenu(_) => panic!("transition to the overworld did not happen"),
    }
}

#[test]
fn set_screen_with_unknown_key_is_reported_and_keeps_the_screen() {
    let mut gs = GameScreens::new(size());
    let r = gs.set_screen(7, size());
    assert_eq!(r, Err(ScreenError::InvalidTransition));
    assert_eq!(key_of(gs.get_current_screen()), MENU_SCREEN_KEY);
}

#[test]
fn set_screen_with_valid_key_installs_the_fresh_screen() {
    let mut gs = GameScreens::new(size());
    let r = gs.set_screen(OVERWORLD_SCREEN_KEY, size());
    assert_eq!(r, Ok(()));
    assert_eq!(key_of(gs.get_current_screen()), OVERWORLD_SCREEN_KEY);
}

#[test]
fn argument_taking_path_is_unavailable_and_keeps_the_screen() {
    let mut gs = GameScreens::new(size());
    let r = gs.set_screen_with_args(
        OVERWORLD_SCREEN_KEY,
        size(),
        vec![ArgValue::Int(3), ArgValue::Text(String::from("level"))],
    );
    assert_eq!(r, Err(ScreenError::ConfigurationError));
    assert_eq!(key_of(gs.get_current_screen()), MENU_SCREEN_KEY);
    let r = gs.set_screen_with_args(9, size(), Vec::new());
    assert_eq!(r, Err(ScreenError::InvalidTransition));
    assert_eq!(key_of(gs.get_current_screen()), MENU_SCREEN_KEY);
}

#[test]
fn after_update_info_exists_exactly_when_a_key_does() {
    let none = AfterUpdateInfo::new(None, Some(vec![ArgValue::Int(1)]));
    assert!(none.is_none());
    let some = AfterUpdateInfo::new(Some(OVERWORLD_SCREEN_KEY), None);
    let info = some.unwrap();
    assert_eq!(info.next_screen, OVERWORLD_SCREEN_KEY);
    assert!(info.args.is_none());
}

#[test]
fn unknown_key_requested_by_a_screen_leaves_it_active() {
    // A screen asking for a key with no registered variant: the tick updates
    // the screen and the request is dropped, keeping the same screen active.
    let overworld = OverworldScreen {
        hero: Hero::new(Color::red(), Vec2 { x: 100, y: 200 }, HERO_SIZE),
        bg_color: Color::green(),
        next_screen: Some(9),
    };
    let mut gs = GameScreens {
        inner: GameScreensInner::Overworld(overworld),
    };
    gs.update(&UpdateArgs { dt_ms: 16 }, size());
    match gs.get_current_screen() {
        GameScreensInner::Overworld(o) => {
            assert_eq!(o.hero.topleft, Vec2 { x: 100, y: 200 });
            assert_eq!(o.next_screen, Some(9));
        },
        GameScreensInner::MainMenu(_) => panic!("the unknown key must not change the screen"),
    }
}

#[test]
fn exclusive_view_replaces_the_active_screen() {
    let mut gs = GameScreens::new(size());
    *gs.get_current_screen_mut() = GameScreensInner::Overworld(OverworldScreen::new(size()));
    assert_eq!(key_of(gs.get_current_screen()), OVERWORLD_SCREEN_KEY);
}

#[test]
fn tick_without_request_keeps_the_screen() {
    let mut gs = GameScreens::new(size());
    gs.update(&UpdateArgs { dt_ms: 16 }, size());
    assert_eq!(key_of(gs.get_current_screen()), MENU_SCREEN_KEY);
}
