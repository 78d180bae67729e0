use game_shell::game::UpdateArgs;
use game_shell::geom::{Color, Size, Vec2};
use game_shell::input::{Button, Input, Key};
use game_shell::screens::overworld::{Hero, HERO_SIZE};

fn press(key: Key) -> Input {
    Input::Press(Button::Keyboard(key))
}

fn release(key: Key) -> Input {
    Input::Release(Button::Keyboard(key))
}

fn fresh_hero() -> Hero {
    Hero::new(Color::red(), Vec2::zero(), HERO_SIZE)
}

#[test]
fn presses_accumulate_per_axis() {
    let mut h = fresh_hero();
    h.input(&press(Key::Up));
    assert_eq!(h.curr_velocity, Vec2 { x: 0, y: -500 });
    h.input(&press(Key::Up));
    assert_eq!(h.curr_velocity, Vec2 { x: 0, y: -1000 });
    h.input(&press(Key::Right));
    h.input(&press(Key::Down));
    assert_eq!(h.curr_velocity, Vec2 { x: 500, y: -500 });
}

#[test]
fn alternate_keys_map_to_same_actions() {
    let mut h = fresh_hero();
    h.input(&press(Key::W));
    h.input(&press(Key::A));
    h.input(&press(Key::S));
    h.input(&press(Key::S));
    h.input(&press(Key::D));
    assert_eq!(h.curr_velocity, Vec2 { x: 0, y: 500 });
}

#[test]
fn any_release_resets_both_axes() {
    let mut h = fresh_hero();
    h.input(&press(Key::Up));
    h.input(&press(Key::Right));
    h.input(&release(Key::D));
    assert_eq!(h.curr_velocity, Vec2 { x: 0, y: 0 });
}

#[test]
fn release_of_pressed_key_resets_and_update_moves_nothing() {
    let mut h = fresh_hero();
    h.input(&press(Key::Up));
    h.input(&release(Key::Up));
    assert_eq!(h.curr_velocity, Vec2 { x: 0, y: 0 });
    h.update(&UpdateArgs { dt_ms: 100 });
    assert_eq!(h.topleft, Vec2 { x: 0, y: 0 });
}

#[test]
fn unmapped_input_is_a_no_op() {
    let mut h = fresh_hero();
    h.input(&press(Key::Escape));
    h.input(&press(Key::Space));
    h.input(&Input::Press(Button::Other));
    h.input(&Input::Other);
    assert_eq!(h.curr_velocity, Vec2 { x: 0, y: 0 });
    // An unmapped release is no translation either, so it must not reset.
    h.input(&press(Key::Left));
    h.input(&release(Key::Space));
    assert_eq!(h.curr_velocity, Vec2 { x: -500, y: 0 });
}

#[test]
fn zero_timestep_leaves_position_unchanged() {
    let mut h = fresh_hero();
    h.input(&press(Key::Down));
    h.update(&UpdateArgs { dt_ms: 0 });
    assert_eq!(h.topleft, Vec2 { x: 0, y: 0 });
    assert_eq!(h.curr_velocity, Vec2 { x: 0, y: 500 });
}

#[test]
fn displacement_is_velocity_times_dt_clamped() {
    // Up then Right, then dt = 0.1 s: velocity (500, -500) units/s, raw
    // contribution (50.0, -50.0) units, clamped to (5.0, -5.0) units.
    let mut h = fresh_hero();
    h.input(&press(Key::Up));
    h.input(&press(Key::Right));
    assert_eq!(h.curr_velocity, Vec2 { x: 500, y: -500 });
    h.update(&UpdateArgs { dt_ms: 100 });
    assert_eq!(h.topleft, Vec2 { x: 5000, y: -5000 });
}

#[test]
fn short_timestep_is_not_clamped() {
    // One press down, dt = 1 ms: contribution 0.5 units, under the bound.
    let mut h = fresh_hero();
    h.input(&press(Key::Down));
    h.update(&UpdateArgs { dt_ms: 1 });
    assert_eq!(h.topleft, Vec2 { x: 0, y: 500 });
    h.update(&UpdateArgs { dt_ms: 1 });
    assert_eq!(h.topleft, Vec2 { x: 0, y: 1000 });
}

#[test]
fn update_keeps_velocity() {
    let mut h = fresh_hero();
    h.input(&press(Key::Left));
    h.update(&UpdateArgs { dt_ms: 100 });
    assert_eq!(h.curr_velocity, Vec2 { x: -500, y: 0 });
    h.update(&UpdateArgs { dt_ms: 100 });
    assert_eq!(h.topleft, Vec2 { x: -10000, y: 0 });
}
