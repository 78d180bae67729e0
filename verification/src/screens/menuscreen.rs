use vstd::prelude::*;

use crate::game::{Event, EventHandler, GameInput, Render, RenderArgs, Scene, Update, UpdateArgs};
use crate::geom::{Color, Size, SquareDraw};
use crate::input::{Button, Input, Key};
use crate::screens::{AfterUpdateInfo, ArgVec, GameScreen, ScreenKey, OVERWORLD_SCREEN_KEY};

verus! {

/// The main menu: a plain background and a pending transition request.
/// The font, glyph cache and widget toolkit the menu is drawn with are
/// outside collaborators: they consume the scene this screen describes.
pub struct MenuScreen {
    pub background_color: Color,
    pub next_screen: Option<ScreenKey>,
}

/// A freshly constructed menu: blue background, no transition requested.
pub open spec fn menu_fresh() -> MenuScreen {
    MenuScreen { background_color: Color { r: 0, g: 0, b: 255, a: 255 }, next_screen: None }
}

/// The menu after consuming one raw input event: a space press requests the
/// transition to the overworld.
pub open spec fn menu_after_input(m: MenuScreen, i: Input) -> MenuScreen {
    MenuScreen {
        next_screen: if i == Input::Press(Button::Keyboard(Key::Space)) {
            Some(OVERWORLD_SCREEN_KEY)
        } else {
            m.next_screen
        },
        ..m
    }
}

impl GameScreen for MenuScreen {
    /// A fresh menu; the window snapshot is not consulted.
    fn new(_window: Size) -> (s: Self)
        ensures
            s == menu_fresh(),
    {
        MenuScreen { background_color: Color::blue(), next_screen: None }
    }

    /// The menu takes no construction arguments: the argument-taking path is
    /// unavailable.
    fn with_args(_window: Size, _args: ArgVec) -> (s: Option<Self>)
        ensures
            s is None,
    {
        None
    }

    /// The pending transition request, if any, with no arguments attached.
    fn get_after_update_info(&self) -> (r: Option<AfterUpdateInfo>)
        ensures
            match self.next_screen {
                Some(key) => r == Some(AfterUpdateInfo { next_screen: key, args: None }),
                None => r is None,
            },
    {
        AfterUpdateInfo::new(self.next_screen, None)
    }
}

impl EventHandler for MenuScreen {
    open spec fn inv(&self) -> bool {
        true
    }

    /// Raw events feed the menu's UI toolkit, which lives outside the shell;
    /// the screen's own state does not change.
    fn handle_event(&mut self, _event: &Event)
        ensures
            *final(self) == *old(self),
    {
    }
}

impl GameInput for MenuScreen {
    open spec fn inv(&self) -> bool {
        true
    }

    fn input(&mut self, input: &Input)
        ensures
            *final(self) == menu_after_input(*old(self), *input),
    {
        match *input {
            Input::Press(Button::Keyboard(Key::Space)) => {
                self.next_screen = Some(OVERWORLD_SCREEN_KEY);
            },
            _ => {},
        }
    }
}

impl Update for MenuScreen {
    open spec fn inv(&self) -> bool {
        true
    }

    /// The menu has nothing to advance.
    fn update(&mut self, _args: &UpdateArgs, _window: Size)
        ensures
            *final(self) == *old(self),
    {
    }
}

impl Render for MenuScreen {
    open spec fn inv(&self) -> bool {
        true
    }

    /// The scene: clear to the background colour. Widgets are drawn by the
    /// UI toolkit outside the shell.
    fn render(&self, _render_args: &RenderArgs) -> (scene: Scene)
        ensures
            scene == (Scene {
                background: self.background_color,
                sprite: Option::<SquareDraw>::None,
            }),
    {
        Scene { background: self.background_color, sprite: None }
    }
}

} // verus!
