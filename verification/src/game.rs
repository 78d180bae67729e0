use vstd::prelude::*;

use crate::geom::{Color, Size, SquareDraw};
use crate::input::Input;
use crate::screens::menuscreen::menu_fresh;
use crate::screens::{
    inner_after_input, scene_of, tick_relation, GameScreens, GameScreensInner,
};

verus! {

/// The longest timestep one update tick accepts, in milliseconds. A frame of
/// a thousand seconds is far beyond anything the event source produces; the
/// bound exists so that velocity integration provably stays within `i64`.
pub const MAX_DT_MS: u64 = 1_000_000;

/// Per-frame timing metadata for one update tick: the time elapsed since the
/// previous tick, in whole milliseconds.
#[derive(Clone, Copy, PartialEq, Eq, Structural, Debug)]
pub struct UpdateArgs {
    pub dt_ms: u64,
}

/// Per-frame viewport metadata for one render call: the draw size in pixels.
#[derive(Clone, Copy, PartialEq, Eq, Structural, Debug)]
pub struct RenderArgs {
    pub width: u32,
    pub height: u32,
}

/// One event pulled from the windowing collaborator: a render frame, an
/// update tick, a raw input event, or anything else (cursor, focus, ...).
#[derive(Clone, Copy, PartialEq, Eq, Structural, Debug)]
pub enum Event {
    Render(RenderArgs),
    Update(UpdateArgs),
    Input(Input),
    Other,
}

/// What one render call asks the render surface to draw: a background fill
/// and, on screens that own one, the hero's square sprite.
#[derive(Clone, Copy, PartialEq, Eq, Structural, Debug)]
pub struct Scene {
    pub background: Color,
    pub sprite: Option<SquareDraw>,
}

/// Owns the screen registry and dispatches each event the windowing
/// collaborator hands in. The window and graphics context themselves live
/// outside: the game keeps only a read-only snapshot of the draw size, and
/// rendering returns a [`Scene`] for the surface outside to draw.
pub struct Game {
    pub screens: GameScreens,
    pub window: Size,
}

impl Game {
    /// Well-formedness of the registry's active screen.
    pub open spec fn wf(self) -> bool {
        self.screens.wf()
    }

    /// A game showing a fresh main menu, with `window` as the draw-size
    /// snapshot handed to screens at construction.
    pub fn new(window: Size) -> (g: Game)
        ensures
            g.window == window,
            g.screens.inner == GameScreensInner::MainMenu(menu_fresh()),
            g.wf(),
    {
        Game { screens: GameScreens::new(window), window }
    }

    /// Dispatches one event: every event reaches the active screen's
    /// bookkeeping first, then a render frame yields the scene to draw, an
    /// update tick advances the active screen and performs a requested
    /// transition, and a raw input event feeds the active screen.
    pub fn step(&mut self, event: &Event) -> (out: Option<Scene>)
        requires
            old(self).wf(),
            *event matches Event::Update(u) ==> u.dt_ms <= MAX_DT_MS,
        ensures
            final(self).wf(),
            final(self).window == old(self).window,
            match *event {
                Event::Render(r) => out == Some(scene_of(old(self).screens.inner, r))
                    && final(self).screens == old(self).screens,
                Event::Update(u) => out is None && tick_relation(
                    old(self).screens.inner,
                    final(self).screens.inner,
                    u.dt_ms as int,
                ),
                Event::Input(i) => out is None && final(self).screens.inner
                    == inner_after_input(old(self).screens.inner, i),
                Event::Other => out is None && *final(self) == *old(self),
            },
    {
        self.handle_event(event);
        match event {
            Event::Render(r) => Some(self.render(r)),
            Event::Update(u) => {
                self.update(u);
                None
            },
            Event::Input(i) => {
                self.input(i);
                None
            },
            Event::Other => None,
        }
    }

    /// The active screen's scene for this frame.
    fn render(&self, args: &RenderArgs) -> (scene: Scene)
        requires
            self.wf(),
        ensures
            scene == scene_of(self.screens.inner, *args),
    {
        self.screens.render(args)
    }

    /// Forwards one raw input event to the active screen.
    fn input(&mut self, args: &Input)
        requires
            old(self).wf(),
        ensures
            final(self).wf(),
            final(self).window == old(self).window,
            final(self).screens.inner == inner_after_input(old(self).screens.inner, *args),
    {
        self.screens.input(args);
    }

    /// Advances the active screen by one tick and performs a requested
    /// transition, handing the draw-size snapshot to any screen constructed.
    fn update(&mut self, args: &UpdateArgs)
        requires
            old(self).wf(),
            args.dt_ms <= MAX_DT_MS,
        ensures
            final(self).wf(),
            final(self).window == old(self).window,
            tick_relation(old(self).screens.inner, final(self).screens.inner, args.dt_ms as int),
    {
        let window = self.window;
        self.screens.update(args, window);
    }
}

impl EventHandler for Game {
    open spec fn inv(&self) -> bool {
        self.wf()
    }

    /// Forwards the raw event to the active screen's bookkeeping.
    fn handle_event(&mut self, event: &Event)
        ensures
            *final(self) == *old(self),
    {
        self.screens.handle_event(event);
    }
}

/// The capability of advancing by one update tick. `window` is a read-only
/// snapshot of the window's current draw size.
pub trait Update {
    spec fn inv(&self) -> bool;

    fn update(&mut self, args: &UpdateArgs, window: Size)
        requires
            old(self).inv(),
            args.dt_ms <= MAX_DT_MS,
        ensures
            final(self).inv(),
    ;
}

/// The capability of consuming one raw input event.
pub trait GameInput {
    spec fn inv(&self) -> bool;

    fn input(&mut self, input: &Input)
        requires
            old(self).inv(),
        ensures
            final(self).inv(),
    ;
}

/// The capability of describing one frame. Rendering reads state and writes
/// nothing: the returned scene is handed to the render surface outside.
pub trait Render {
    spec fn inv(&self) -> bool;

    fn render(&self, render_args: &RenderArgs) -> (scene: Scene)
        requires
            self.inv(),
    ;
}

/// The capability of observing every raw event before it is dispatched, for
/// bookkeeping (the menu's UI toolkit consumes these outside the shell).
pub trait EventHandler {
    spec fn inv(&self) -> bool;

    fn handle_event(&mut self, event: &Event)
        requires
            old(self).inv(),
        ensures
            final(self).inv(),
    ;
}

} // verus!
