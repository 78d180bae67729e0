use game_shell::game::{Event, Game, RenderArgs, Scene, UpdateArgs};
use game_shell::geom::{Color, Size, Vec2};
use game_shell::input::{Button, Input, Key};
use game_shell::screens::GameScreensInner;

fn size() -> Size {
    Size { width: 800, height: 600 }
}

fn render_args() -> RenderArgs {
    RenderArgs { width: 800, height: 600 }
}

#[test]
fn menu_frame_is_a_blue_clear_with_no_sprite() {
    let mut g = Game::new(size());
    let scene = g.step(&Event::Render(render_args()));
    assert_eq!(
        scene,
        Some(Scene { background: Color::blue(), sprite: None })
    );
}

#[test]
fn non_render_events_yield_no_scene() {
    let mut g = Game::new(size());
    assert_eq!(g.step(&Event::Other), None);
    assert_eq!(g.step(&Event::Update(UpdateArgs { dt_ms: 16 })), None);
    assert_eq!(
        g.step(&Event::Input(Input::Press(Button::Keyboard(Key::Space)))),
        None
    );
}

#[test]
fn overworld_frame_draws_the_hero_square() {
    let mut g = Game::new(size());
    g.step(&Event::Input(Input::Press(Button::Keyboard(Key::Space))));
    g.step(&Event::Update(UpdateArgs { dt_ms: 16 }));
    let scene = g.step(&Event::Render(render_args())).unwrap();
    assert_eq!(scene.background, Color::green());
    let sprite = scene.sprite.unwrap();
    assert_eq!(sprite.color, Color::red());
    assert_eq!(sprite.corner, Vec2 { x: 0, y: 0 });
    assert_eq!(sprite.size, 50_000);
    assert_eq!(sprite.rotation, 0);
    // The square rotates about the viewport center, offset by half its side.
    assert_eq!(sprite.center, Vec2 { x: 400_000, y: 300_000 });
    assert_eq!(sprite.half, 25_000);
}

#[test]
fn full_session_moves_the_hero_exactly() {
    let mut g = Game::new(size());
    g.step(&Event::Input(Input::Press(Button::Keyboard(Key::Space))));
    g.step(&Event::Update(UpdateArgs { dt_ms: 16 }));
    g.step(&Event::Input(Input::Press(Button::Keyboard(Key::Up))));
    g.step(&Event::Input(Input::Press(Button::Keyboard(Key::Right))));
    g.step(&Event::Update(UpdateArgs { dt_ms: 100 }));
    match &g.screens.inner {
        GameScreensInner::Overworld(o) => {
            assert_eq!(o.hero.curr_velocity, Vec2 { x: 500, y: -500 });
            assert_eq!(o.hero.topleft, Vec2 { x: 5000, y: -5000 });
        },
        GameScreensInner::MainMenu(_) => panic!("expected the overworld to be active"),
    }
}

#[test]
fn odd_frame_sizes_center_on_the_floored_half() {
    let mut g = Game::new(size());
    g.step(&Event::Input(Input::Press(Button::Keyboard(Key::Space))));
    g.step(&Event::Update(UpdateArgs { dt_ms: 16 }));
    let scene = g
        .step(&Event::Render(RenderArgs { width: 801, height: 601 }))
        .unwrap();
    let sprite = scene.sprite.unwrap();
    assert_eq!(sprite.center, Vec2 { x: 400_000, y: 300_000 });
}
