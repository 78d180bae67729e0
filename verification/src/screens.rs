use vstd::prelude::*;

pub mod menuscreen;
pub mod overworld;

use crate::game::{Event, EventHandler, GameInput, Render, RenderArgs, Scene, Update, UpdateArgs};
use crate::geom::Size;
use crate::input::Input;
use crate::screens::menuscreen::{menu_after_input, menu_fresh, MenuScreen};
use crate::screens::overworld::{
    is_fresh_overworld, overworld_after_input, overworld_after_update, square_draw_of,
    OverworldScreen,
};

verus! {

/// A small integer identifying a screen variant in transition requests.
pub type ScreenKey = usize;

/// The key of the main menu, the initial screen.
pub const MENU_SCREEN_KEY: ScreenKey = 0;

/// The key of the overworld.
pub const OVERWORLD_SCREEN_KEY: ScreenKey = 1;

/// One argument value a transition request may carry. The set of argument
/// shapes is closed; a target screen that takes arguments reads the variants
/// it expects at construction.
#[derive(Clone, PartialEq, Debug)]
pub enum ArgValue {
    Int(i64),
    Text(String),
}

/// An ordered sequence of transition arguments.
pub type ArgVec = Vec<ArgValue>;

/// Why a transition request was not honoured.
#[derive(Clone, Copy, PartialEq, Eq, Structural, Debug)]
pub enum ScreenError {
    /// The request named a key with no registered screen variant; the active
    /// screen stays.
    InvalidTransition,
    /// The target variant does not support the argument-taking constructor;
    /// the active screen stays rather than installing a broken one.
    ConfigurationError,
}

/// A screen's one-shot transition request, produced after an update tick and
/// consumed by the registry: the target screen's key, and optionally an
/// ordered argument list for the target's argument-taking constructor.
pub struct AfterUpdateInfo {
    pub next_screen: ScreenKey,
    pub args: Option<ArgVec>,
}

impl AfterUpdateInfo {
    /// A request for `optkey`'s screen carrying `args`, or no request at all
    /// when `optkey` is `None`.
    pub fn new(optkey: Option<ScreenKey>, args: Option<ArgVec>) -> (r: Option<AfterUpdateInfo>)
        ensures
            match optkey {
                Some(key) => r == Some(AfterUpdateInfo { next_screen: key, args }),
                None => r is None,
            },
    {
        match optkey {
            Some(scr) => Some(AfterUpdateInfo { next_screen: scr, args }),
            None => None,
        }
    }
}

/// A unit of the game: one mode with its own entities, input handling and
/// scene, able to request a transition after an update tick.
pub trait GameScreen: Update + GameInput + Render + EventHandler {
    /// Constructs the screen from a snapshot of the window's draw size.
    fn new(window: Size) -> Self where Self: Sized;

    /// Constructs the screen from a snapshot and an argument list, for the
    /// variants that support typed construction from arguments.
    fn with_args(window: Size, args: ArgVec) -> Option<Self> where Self: Sized;

    /// The transition request this screen produced during its last update
    /// tick, if any.
    fn get_after_update_info(&self) -> Option<AfterUpdateInfo>;
}

/// The closed set of screen variants. Exactly one is live at any time.
pub enum GameScreensInner {
    MainMenu(MenuScreen),
    Overworld(OverworldScreen),
}

impl GameScreensInner {
    /// The key of the variant that is live.
    pub open spec fn key(self) -> ScreenKey {
        match self {
            GameScreensInner::MainMenu(_) => MENU_SCREEN_KEY,
            GameScreensInner::Overworld(_) => OVERWORLD_SCREEN_KEY,
        }
    }

    /// Well-formedness of the live screen.
    pub open spec fn wf(self) -> bool {
        match self {
            GameScreensInner::MainMenu(_) => true,
            GameScreensInner::Overworld(o) => o.wf(),
        }
    }
}

/// Whether `key` names a constructible screen variant.
pub open spec fn valid_key(key: ScreenKey) -> bool {
    key == MENU_SCREEN_KEY || key == OVERWORLD_SCREEN_KEY
}

/// Whether `s` is the freshly constructed, default-initialized screen of
/// `key`. The previous screen's state is discarded on transition, so this is
/// all a transition leaves behind.
pub open spec fn fresh_screen_for_key(key: ScreenKey, s: GameScreensInner) -> bool {
    match s {
        GameScreensInner::MainMenu(m) => key == MENU_SCREEN_KEY && m == menu_fresh(),
        GameScreensInner::Overworld(o) => key == OVERWORLD_SCREEN_KEY && is_fresh_overworld(o),
    }
}

/// The live screen after it consumes one update tick of `dt` milliseconds
/// (before any transition is performed).
pub open spec fn inner_after_update(s: GameScreensInner, dt: int) -> GameScreensInner {
    match s {
        GameScreensInner::MainMenu(m) => GameScreensInner::MainMenu(m),
        GameScreensInner::Overworld(o) => GameScreensInner::Overworld(
            overworld_after_update(o, dt),
        ),
    }
}

/// The live screen after it consumes one raw input event.
pub open spec fn inner_after_input(s: GameScreensInner, i: Input) -> GameScreensInner {
    match s {
        GameScreensInner::MainMenu(m) => GameScreensInner::MainMenu(menu_after_input(m, i)),
        GameScreensInner::Overworld(o) => GameScreensInner::Overworld(overworld_after_input(o, i)),
    }
}

/// The key of the screen `s` is asking to transition to, if any. Every
/// variant here requests without arguments.
pub open spec fn transition_target(s: GameScreensInner) -> Option<ScreenKey> {
    match s {
        GameScreensInner::MainMenu(m) => m.next_screen,
        GameScreensInner::Overworld(o) => o.next_screen,
    }
}

/// The scene the live screen describes for one render call.
pub open spec fn scene_of(s: GameScreensInner, args: RenderArgs) -> Scene {
    match s {
        GameScreensInner::MainMenu(m) => Scene {
            background: m.background_color,
            sprite: None,
        },
        GameScreensInner::Overworld(o) => Scene {
            background: o.bg_color,
            sprite: Some(square_draw_of(o.hero, args)),
        },
    }
}

/// How one full update tick relates the live screen before (`pre`) and after
/// (`post`): the screen consumes the tick; then, if it requested a valid
/// transition, the registry replaces it with the target's fresh instance,
/// and otherwise — no request, or an unknown key — the updated screen stays.
pub open spec fn tick_relation(pre: GameScreensInner, post: GameScreensInner, dt: int) -> bool {
    let updated = inner_after_update(pre, dt);
    match transition_target(updated) {
        Some(key) => if valid_key(key) {
            fresh_screen_for_key(key, post)
        } else {
            post == updated
        },
        None => post == updated,
    }
}

/// Screen registry and state machine: holds exactly one active screen,
/// constructs screens from window snapshots, and performs the transition a
/// screen requests after its update tick.
pub struct GameScreens {
    pub inner: GameScreensInner,
}

impl GameScreens {
    /// Well-formedness of the active screen.
    pub open spec fn wf(self) -> bool {
        self.inner.wf()
    }

    /// A registry whose active screen is a fresh main menu.
    pub fn new(win: Size) -> (s: GameScreens)
        ensures
            s.inner == GameScreensInner::MainMenu(menu_fresh()),
            s.wf(),
    {
        GameScreens { inner: GameScreensInner::MainMenu(MenuScreen::new(win)) }
    }

    /// A shared view of the active screen.
    pub fn get_current_screen(&self) -> (r: &GameScreensInner)
        ensures
            *r == self.inner,
    {
        &self.inner
    }

    /// An exclusive view of the active screen.
    pub fn get_current_screen_mut(&mut self) -> (r: &mut GameScreensInner)
        ensures
            *r == old(self).inner,
            final(self).inner == *final(r),
    {
        &mut self.inner
    }

    /// Replaces the active screen with a fresh instance of `index`'s variant,
    /// discarding the previous screen's state. An unknown key changes
    /// nothing and reports [`ScreenError::InvalidTransition`].
    pub fn set_screen(&mut self, index: ScreenKey, window: Size) -> (r: Result<(), ScreenError>)
        requires
            old(self).wf(),
        ensures
            valid_key(index) ==> r is Ok && fresh_screen_for_key(index, final(self).inner),
            !valid_key(index) ==> r == Err::<(), ScreenError>(ScreenError::InvalidTransition)
                && *final(self) == *old(self),
            final(self).wf(),
    {
        if index == MENU_SCREEN_KEY {
            self.inner = GameScreensInner::MainMenu(MenuScreen::new(window));
            Ok(())
        } else if index == OVERWORLD_SCREEN_KEY {
            self.inner = GameScreensInner::Overworld(OverworldScreen::new(window));
            Ok(())
        } else {
            Err(ScreenError::InvalidTransition)
        }
    }

    /// Replaces the active screen through the argument-taking constructor of
    /// `index`'s variant. No variant here supports that path, so the request
    /// reports [`ScreenError::ConfigurationError`] — or
    /// [`ScreenError::InvalidTransition`] for an unknown key — and the
    /// active screen stays rather than installing a broken one.
    pub fn set_screen_with_args(
        &mut self,
        index: ScreenKey,
        window: Size,
        args: ArgVec,
    ) -> (r: Result<(), ScreenError>)
        ensures
            *final(self) == *old(self),
            valid_key(index) ==> r == Err::<(), ScreenError>(ScreenError::ConfigurationError),
            !valid_key(index) ==> r == Err::<(), ScreenError>(ScreenError::InvalidTransition),
    {
        if index == MENU_SCREEN_KEY {
            match MenuScreen::with_args(window, args) {
                Some(s) => {
                    self.inner = GameScreensInner::MainMenu(s);
                    Ok(())
                },
                None => Err(ScreenError::ConfigurationError),
            }
        } else if index == OVERWORLD_SCREEN_KEY {
            match OverworldScreen::with_args(window, args) {
                Some(s) => {
                    self.inner = GameScreensInner::Overworld(s);
                    Ok(())
                },
                None => Err(ScreenError::ConfigurationError),
            }
        } else {
            Err(ScreenError::InvalidTransition)
        }
    }
}

impl EventHandler for GameScreens {
    open spec fn inv(&self) -> bool {
        self.wf()
    }

    /// Forwards the raw event to the active screen's bookkeeping.
    fn handle_event(&mut self, event: &Event)
        ensures
            *final(self) == *old(self),
    {
        match &mut self.inner {
            GameScreensInner::MainMenu(m) => m.handle_event(event),
            GameScreensInner::Overworld(o) => o.handle_event(event),
        }
    }
}

impl GameInput for GameScreens {
    open spec fn inv(&self) -> bool {
        self.wf()
    }

    /// Forwards the raw input event to the active screen.
    fn input(&mut self, input: &Input)
        ensures
            final(self).inner == inner_after_input(old(self).inner, *input),
    {
        match &mut self.inner {
            GameScreensInner::MainMenu(m) => m.input(input),
            GameScreensInner::Overworld(o) => o.input(input),
        }
    }
}

impl Update for GameScreens {
    open spec fn inv(&self) -> bool {
        self.wf()
    }

    /// One full tick: the active screen updates; then, if it requested a
    /// transition, the registry performs it. A request the registry cannot
    /// honour leaves the updated screen active.
    fn update(&mut self, args: &UpdateArgs, window: Size)
        ensures
            tick_relation(old(self).inner, final(self).inner, args.dt_ms as int),
    {
        match &mut self.inner {
            GameScreensInner::MainMenu(m) => m.update(args, window),
            GameScreensInner::Overworld(o) => o.update(args, window),
        }
        let info = match &self.inner {
            GameScreensInner::MainMenu(m) => m.get_after_update_info(),
            GameScreensInner::Overworld(o) => o.get_after_update_info(),
        };
        if let Some(AfterUpdateInfo { next_screen, args: transition_args }) = info {
            match transition_args {
                Some(a) => {
                    let _ = self.set_screen_with_args(next_screen, window, a);
                },
                None => {
                    let _ = self.set_screen(next_screen, window);
                },
            }
        }
    }
}

impl Render for GameScreens {
    open spec fn inv(&self) -> bool {
        self.wf()
    }

    /// The active screen's scene.
    fn render(&self, render_args: &RenderArgs) -> (scene: Scene)
        ensures
            scene == scene_of(self.inner, *render_args),
    {
        match &self.inner {
            GameScreensInner::MainMenu(m) => m.render(render_args),
            GameScreensInner::Overworld(o) => o.render(render_args),
        }
    }
}

/// One update tick changes the active screen's key exactly when the screen
/// requested a valid transition, and then to exactly the requested key with
/// the target freshly constructed; an unknown key, or no request, keeps the
/// key the tick started with.
pub proof fn lemma_tick_key_change(pre: GameScreensInner, post: GameScreensInner, dt: int)
    requires
        tick_relation(pre, post, dt),
    ensures
        inner_after_update(pre, dt).key() == pre.key(),
        match transition_target(inner_after_update(pre, dt)) {
            Some(key) => {
                &&& valid_key(key) ==> post.key() == key && fresh_screen_for_key(key, post)
                &&& !valid_key(key) ==> post == inner_after_update(pre, dt) && post.key()
                    == pre.key()
            },
            None => post == inner_after_update(pre, dt) && post.key() == pre.key(),
        },
{
}

} // verus!
