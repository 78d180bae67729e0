use vstd::prelude::*;

use crate::game::{Event, EventHandler, GameInput, Render, RenderArgs, Scene, Update, UpdateArgs, MAX_DT_MS};
use crate::geom::{clamp, clamp_spec, Color, Size, SquareDraw, Vec2};
use crate::input::{Button, Input, InputTranslator, Key, TranslatedEvent, TranslatorBuilder};
use crate::screens::{AfterUpdateInfo, ArgVec, GameScreen, ScreenKey, MENU_SCREEN_KEY};

verus! {

/// The velocity added to one axis by one press edge: 500.0 world units per
/// second, in milli-units per millisecond.
pub const VELOCITY_INCREMENT: i64 = 500;

/// The bound the stored velocity is held to on each axis, so that press
/// accumulation and integration provably stay within `i64`. Two million
/// presses on one axis reach it; until then presses accumulate exactly.
pub const VELOCITY_CAP: i64 = 1_000_000_000;

/// The component-wise clamp bound on one tick's displacement: 5.0 units.
pub const MAX_VELOCITY: i64 = 5_000;

/// The hero's square side: 50.0 units.
pub const HERO_SIZE: i64 = 50_000;

/// The bound the position is held to on each axis. A screen is under a
/// million milli-units wide, so the bound is as good as "no bound"; it
/// exists so that integration provably stays within `i64`.
pub const POSITION_CAP: i64 = 1_000_000_000_000_000;

/// The semantic actions the overworld binds keys to.
#[derive(Clone, Copy, PartialEq, Eq, Structural, Debug)]
pub enum HeroAction {
    MoveUp,
    MoveLeft,
    MoveRight,
    MoveDown,
}

/// The velocity change one press of `a` makes on the horizontal axis:
/// left subtracts the increment, right adds it.
pub open spec fn press_dx(a: HeroAction) -> int {
    match a {
        HeroAction::MoveLeft => -(VELOCITY_INCREMENT as int),
        HeroAction::MoveRight => VELOCITY_INCREMENT as int,
        _ => 0,
    }
}

/// The velocity change one press of `a` makes on the vertical axis:
/// up subtracts the increment (the vertical axis grows downwards), down
/// adds it.
pub open spec fn press_dy(a: HeroAction) -> int {
    match a {
        HeroAction::MoveUp => -(VELOCITY_INCREMENT as int),
        HeroAction::MoveDown => VELOCITY_INCREMENT as int,
        _ => 0,
    }
}

/// One velocity component held to the accumulation bound.
pub open spec fn cap_velocity(v: int) -> i64 {
    clamp_spec(v, -(VELOCITY_CAP as int), VELOCITY_CAP as int) as i64
}

/// The velocity after one press of `a`: the per-direction increment is added
/// on the corresponding axis and both components are held to the bound.
pub open spec fn vel_after_press(v: Vec2, a: HeroAction) -> Vec2 {
    Vec2 { x: cap_velocity(v.x + press_dx(a)), y: cap_velocity(v.y + press_dy(a)) }
}

/// The velocity after one translated event: a press accumulates, a release
/// of any action resets both components to zero, anything else changes
/// nothing.
pub open spec fn vel_after_event(v: Vec2, t: TranslatedEvent<HeroAction>) -> Vec2 {
    match t {
        TranslatedEvent::Press(a) => vel_after_press(v, a),
        TranslatedEvent::Release(_) => Vec2 { x: 0, y: 0 },
        TranslatedEvent::Other => v,
    }
}

/// One tick's displacement on one axis: the velocity contribution `v * dt`
/// clamped component-wise to the max-velocity bound.
pub open spec fn displacement(v: int, max: int, dt: int) -> int {
    clamp_spec(v * dt, -max, max)
}

/// The position after one tick: each axis moves by its clamped displacement
/// and is held to the position bound.
pub open spec fn pos_after(p: Vec2, v: Vec2, max: Vec2, dt: int) -> Vec2 {
    Vec2 {
        x: clamp_spec(
            p.x + displacement(v.x as int, max.x as int, dt),
            -(POSITION_CAP as int),
            POSITION_CAP as int,
        ) as i64,
        y: clamp_spec(
            p.y + displacement(v.y as int, max.y as int, dt),
            -(POSITION_CAP as int),
            POSITION_CAP as int,
        ) as i64,
    }
}

/// The controllable rectangle: position, velocity, clamp bounds, and the
/// translator that turns raw key events into [`HeroAction`]s.
pub struct Hero {
    pub input_map: InputTranslator<HeroAction>,
    pub color: Color,
    pub topleft: Vec2,
    pub curr_velocity: Vec2,
    pub max_velocity: Vec2,
    pub size: i64,
    pub rotation: i64,
}

/// The key table the hero is constructed with: arrows and WASD, many keys
/// to one action.
pub open spec fn hero_key_table() -> Seq<(Button, HeroAction)> {
    seq![
        (Button::Keyboard(Key::Up), HeroAction::MoveUp),
        (Button::Keyboard(Key::W), HeroAction::MoveUp),
        (Button::Keyboard(Key::Down), HeroAction::MoveDown),
        (Button::Keyboard(Key::S), HeroAction::MoveDown),
        (Button::Keyboard(Key::Left), HeroAction::MoveLeft),
        (Button::Keyboard(Key::A), HeroAction::MoveLeft),
        (Button::Keyboard(Key::Right), HeroAction::MoveRight),
        (Button::Keyboard(Key::D), HeroAction::MoveRight),
    ]
}

/// The hero after consuming one raw input event.
pub open spec fn hero_after_input(h: Hero, i: Input) -> Hero {
    Hero { curr_velocity: vel_after_event(h.curr_velocity, translate_event(h, i)), ..h }
}

/// What the hero's own translator makes of a raw event.
pub open spec fn translate_event(h: Hero, i: Input) -> TranslatedEvent<HeroAction> {
    crate::input::translate_spec(h.input_map.table@, i)
}

/// The hero after one update tick of `dt` milliseconds.
pub open spec fn hero_after_update(h: Hero, dt: int) -> Hero {
    Hero { topleft: pos_after(h.topleft, h.curr_velocity, h.max_velocity, dt), ..h }
}

/// The overworld after one update tick: only the hero advances.
pub open spec fn overworld_after_update(s: OverworldScreen, dt: int) -> OverworldScreen {
    OverworldScreen { hero: hero_after_update(s.hero, dt), ..s }
}

/// The draw command the hero's render contract produces: its square at
/// `topleft`, rotated about the viewport's center.
pub open spec fn square_draw_of(h: Hero, args: RenderArgs) -> SquareDraw {
    SquareDraw {
        color: h.color,
        corner: h.topleft,
        size: h.size,
        rotation: h.rotation,
        center: Vec2 {
            x: ((args.width as int / 2) * 1000) as i64,
            y: ((args.height as int / 2) * 1000) as i64,
        },
        half: (h.size as int / 2) as i64,
    }
}

impl Hero {
    /// Well-formedness: velocity within the accumulation bound, non-negative
    /// clamp bounds, position within the position bound, non-negative size.
    pub open spec fn wf(self) -> bool {
        &&& -VELOCITY_CAP <= self.curr_velocity.x <= VELOCITY_CAP
        &&& -VELOCITY_CAP <= self.curr_velocity.y <= VELOCITY_CAP
        &&& 0 <= self.max_velocity.x <= VELOCITY_CAP
        &&& 0 <= self.max_velocity.y <= VELOCITY_CAP
        &&& -POSITION_CAP <= self.topleft.x <= POSITION_CAP
        &&& -POSITION_CAP <= self.topleft.y <= POSITION_CAP
        &&& 0 <= self.size
    }

    /// A hero at rest at `tl` with the arrow/WASD key table, the default
    /// max-velocity bound, and no rotation.
    pub fn new(col: Color, tl: Vec2, sz: i64) -> (h: Hero)
        requires
            -POSITION_CAP <= tl.x <= POSITION_CAP,
            -POSITION_CAP <= tl.y <= POSITION_CAP,
            0 <= sz,
        ensures
            h.input_map.table@ == hero_key_table(),
            h.color == col,
            h.topleft == tl,
            h.curr_velocity == (Vec2 { x: 0, y: 0 }),
            h.max_velocity == (Vec2 { x: MAX_VELOCITY, y: MAX_VELOCITY }),
            h.size == sz,
            h.rotation == 0,
            h.wf(),
    {
        let builder = TranslatorBuilder::new(Size { width: 0, height: 0 })
            .with_action_mapping(Button::Keyboard(Key::Up), HeroAction::MoveUp)
            .with_action_mapping(Button::Keyboard(Key::W), HeroAction::MoveUp)
            .with_action_mapping(Button::Keyboard(Key::Down), HeroAction::MoveDown)
            .with_action_mapping(Button::Keyboard(Key::S), HeroAction::MoveDown)
            .with_action_mapping(Button::Keyboard(Key::Left), HeroAction::MoveLeft)
            .with_action_mapping(Button::Keyboard(Key::A), HeroAction::MoveLeft)
            .with_action_mapping(Button::Keyboard(Key::Right), HeroAction::MoveRight)
            .with_action_mapping(Button::Keyboard(Key::D), HeroAction::MoveRight);
        let input_map = builder.build();
        proof {
            assert(input_map.table@ =~= hero_key_table());
        }
        Hero {
            input_map,
            color: col,
            topleft: tl,
            curr_velocity: Vec2::zero(),
            max_velocity: Vec2 { x: MAX_VELOCITY, y: MAX_VELOCITY },
            size: sz,
            rotation: 0,
        }
    }

    /// Translates the event; a press adds the per-direction increment to the
    /// corresponding velocity axis, a release of any action resets both
    /// velocity components to exactly zero, anything else is a no-op.
    pub fn input(&mut self, input: &Input)
        requires
            old(self).wf(),
        ensures
            *final(self) == hero_after_input(*old(self), *input),
            final(self).wf(),
            translate_event(*old(self), *input) matches TranslatedEvent::Release(_)
                ==> final(self).curr_velocity == (Vec2 { x: 0, y: 0 }),
    {
        let t = self.input_map.translate(input);
        match t {
            TranslatedEvent::Press(act) => {
                match act {
                    HeroAction::MoveUp => {
                        self.curr_velocity.y =
                            cap_add(self.curr_velocity.y, -VELOCITY_INCREMENT);
                    },
                    HeroAction::MoveDown => {
                        self.curr_velocity.y =
                            cap_add(self.curr_velocity.y, VELOCITY_INCREMENT);
                    },
                    HeroAction::MoveLeft => {
                        self.curr_velocity.x =
                            cap_add(self.curr_velocity.x, -VELOCITY_INCREMENT);
                    },
                    HeroAction::MoveRight => {
                        self.curr_velocity.x =
                            cap_add(self.curr_velocity.x, VELOCITY_INCREMENT);
                    },
                }
            },
            TranslatedEvent::Release(_) => {
                self.curr_velocity = Vec2::zero();
            },
            TranslatedEvent::Other => {},
        }
    }

    /// Integrates the velocity over `dt` milliseconds: each axis moves by
    /// `clamp(velocity * dt, -max_velocity, max_velocity)`.
    pub fn update(&mut self, args: &UpdateArgs)
        requires
            old(self).wf(),
            args.dt_ms <= MAX_DT_MS,
        ensures
            *final(self) == hero_after_update(*old(self), args.dt_ms as int),
            final(self).wf(),
    {
        let dt = args.dt_ms as i64;
        let vx = self.curr_velocity.x;
        let vy = self.curr_velocity.y;
        proof {
            assert(-1_000_000_000_000_000 <= vx as int * dt as int <= 1_000_000_000_000_000)
                by (nonlinear_arith)
                requires
                    -(VELOCITY_CAP as int) <= vx as int <= VELOCITY_CAP as int,
                    0 <= dt as int <= MAX_DT_MS as int,
            ;
            assert(-1_000_000_000_000_000 <= vy as int * dt as int <= 1_000_000_000_000_000)
                by (nonlinear_arith)
                requires
                    -(VELOCITY_CAP as int) <= vy as int <= VELOCITY_CAP as int,
                    0 <= dt as int <= MAX_DT_MS as int,
            ;
        }
        let dx = clamp(vx * dt, -self.max_velocity.x, self.max_velocity.x);
        let dy = clamp(vy * dt, -self.max_velocity.y, self.max_velocity.y);
        let nx = clamp(self.topleft.x + dx, -POSITION_CAP, POSITION_CAP);
        let ny = clamp(self.topleft.y + dy, -POSITION_CAP, POSITION_CAP);
        self.topleft = Vec2 { x: nx, y: ny };
    }

    /// Describes the hero's square for the render surface: side `size`,
    /// rotated by `rotation` about the viewport center, filled with `color`.
    pub fn render(&self, args: &RenderArgs) -> (d: SquareDraw)
        requires
            self.wf(),
        ensures
            d == square_draw_of(*self, *args),
    {
        let cx = ((args.width / 2) as i64) * 1000;
        let cy = ((args.height / 2) as i64) * 1000;
        let half = ((self.size as u64) / 2) as i64;
        SquareDraw {
            color: self.color,
            corner: self.topleft,
            size: self.size,
            rotation: self.rotation,
            center: Vec2 { x: cx, y: cy },
            half,
        }
    }
}

/// One velocity component plus a delta, held to the accumulation bound.
fn cap_add(v: i64, d: i64) -> (r: i64)
    requires
        -VELOCITY_CAP <= v <= VELOCITY_CAP,
        -VELOCITY_CAP <= d <= VELOCITY_CAP,
    ensures
        r == cap_velocity(v + d),
{
    clamp(v + d, -VELOCITY_CAP, VELOCITY_CAP)
}

/// The single playable screen: a hero on a plain background, leaving for the
/// menu when space is pressed.
pub struct OverworldScreen {
    pub hero: Hero,
    pub bg_color: Color,
    pub next_screen: Option<ScreenKey>,
}

/// A freshly constructed overworld: hero at rest at the origin, green
/// background, no transition requested.
pub open spec fn is_fresh_overworld(s: OverworldScreen) -> bool {
    &&& s.hero.input_map.table@ == hero_key_table()
    &&& s.hero.color == (Color { r: 255, g: 0, b: 0, a: 255 })
    &&& s.hero.topleft == (Vec2 { x: 0, y: 0 })
    &&& s.hero.curr_velocity == (Vec2 { x: 0, y: 0 })
    &&& s.hero.max_velocity == (Vec2 { x: MAX_VELOCITY, y: MAX_VELOCITY })
    &&& s.hero.size == HERO_SIZE
    &&& s.hero.rotation == 0
    &&& s.bg_color == (Color { r: 0, g: 255, b: 0, a: 255 })
    &&& s.next_screen is None
}

/// The overworld after consuming one raw input event: the hero consumes it,
/// and a space press requests the transition back to the menu.
pub open spec fn overworld_after_input(s: OverworldScreen, i: Input) -> OverworldScreen {
    OverworldScreen {
        hero: hero_after_input(s.hero, i),
        next_screen: if i == Input::Press(Button::Keyboard(Key::Space)) {
            Some(MENU_SCREEN_KEY)
        } else {
            s.next_screen
        },
        ..s
    }
}

impl OverworldScreen {
    /// Well-formedness: the hero is well-formed.
    pub open spec fn wf(self) -> bool {
        self.hero.wf()
    }
}

impl GameScreen for OverworldScreen {
    /// A fresh overworld; the window snapshot is not consulted.
    fn new(_window: Size) -> (s: Self)
        ensures
            is_fresh_overworld(s),
            s.wf(),
    {
        OverworldScreen {
            bg_color: Color::green(),
            hero: Hero::new(Color::red(), Vec2::zero(), HERO_SIZE),
            next_screen: None,
        }
    }

    /// The overworld takes no construction arguments: the argument-taking
    /// path is unavailable.
    fn with_args(_window: Size, _args: ArgVec) -> (s: Option<Self>)
        ensures
            s is None,
    {
        None
    }

    /// The pending transition request, if any, with no arguments attached.
    fn get_after_update_info(&self) -> (r: Option<AfterUpdateInfo>)
        ensures
            match self.next_screen {
                Some(key) => r == Some(AfterUpdateInfo { next_screen: key, args: None }),
                None => r is None,
            },
    {
        AfterUpdateInfo::new(self.next_screen, None)
    }
}

impl EventHandler for OverworldScreen {
    open spec fn inv(&self) -> bool {
        self.wf()
    }

    /// The overworld keeps no per-event bookkeeping.
    fn handle_event(&mut self, _event: &Event)
        ensures
            *final(self) == *old(self),
    {
    }
}

impl GameInput for OverworldScreen {
    open spec fn inv(&self) -> bool {
        self.wf()
    }

    fn input(&mut self, input: &Input)
        ensures
            *final(self) == overworld_after_input(*old(self), *input),
    {
        self.hero.input(input);
        match *input {
            Input::Press(Button::Keyboard(Key::Space)) => {
                self.next_screen = Some(MENU_SCREEN_KEY);
            },
            _ => {},
        }
    }
}

impl Update for OverworldScreen {
    open spec fn inv(&self) -> bool {
        self.wf()
    }

    fn update(&mut self, args: &UpdateArgs, _window: Size)
        ensures
            *final(self) == overworld_after_update(*old(self), args.dt_ms as int),
    {
        self.hero.update(args);
    }
}

impl Render for OverworldScreen {
    open spec fn inv(&self) -> bool {
        self.wf()
    }

    /// The scene: clear to the background colour, then the hero's square.
    fn render(&self, render_args: &RenderArgs) -> (scene: Scene)
        ensures
            scene == (Scene {
                background: self.bg_color,
                sprite: Some(square_draw_of(self.hero, *render_args)),
            }),
    {
        Scene { background: self.bg_color, sprite: Some(self.hero.render(render_args)) }
    }
}

/// The horizontal velocity a sequence of presses accumulates: the sum of the
/// per-press increments, signed per direction.
pub open spec fn sum_dx(actions: Seq<HeroAction>) -> int
    decreases actions.len(),
{
    if actions.len() == 0 {
        0
    } else {
        sum_dx(actions.drop_last()) + press_dx(actions.last())
    }
}

/// The vertical velocity a sequence of presses accumulates.
pub open spec fn sum_dy(actions: Seq<HeroAction>) -> int
    decreases actions.len(),
{
    if actions.len() == 0 {
        0
    } else {
        sum_dy(actions.drop_last()) + press_dy(actions.last())
    }
}

/// The velocity after a sequence of press events with no intervening
/// release.
pub open spec fn vel_after_presses(v: Vec2, actions: Seq<HeroAction>) -> Vec2
    decreases actions.len(),
{
    if actions.len() == 0 {
        v
    } else {
        vel_after_press(vel_after_presses(v, actions.drop_last()), actions.last())
    }
}

proof fn lemma_sum_bounds(actions: Seq<HeroAction>)
    ensures
        -(actions.len() as int * VELOCITY_INCREMENT) <= sum_dx(actions)
            <= actions.len() as int * VELOCITY_INCREMENT,
        -(actions.len() as int * VELOCITY_INCREMENT) <= sum_dy(actions)
            <= actions.len() as int * VELOCITY_INCREMENT,
    decreases actions.len(),
{
    if actions.len() > 0 {
        lemma_sum_bounds(actions.drop_last());
    }
}

/// Law: for any sequence of presses without an intervening release, starting
/// from rest, the velocity on each axis is exactly the sum of the per-press
/// increments — up and left subtract, down and right add — as long as that
/// sum stays within the accumulation bound.
pub proof fn lemma_press_accumulation(actions: Seq<HeroAction>)
    requires
        actions.len() as int * VELOCITY_INCREMENT <= VELOCITY_CAP,
    ensures
        vel_after_presses(Vec2 { x: 0, y: 0 }, actions) == (Vec2 {
            x: sum_dx(actions) as i64,
            y: sum_dy(actions) as i64,
        }),
    decreases actions.len(),
{
    lemma_sum_bounds(actions);
    if actions.len() > 0 {
        lemma_press_accumulation(actions.drop_last());
        lemma_sum_bounds(actions.drop_last());
    }
}

/// Law: one tick's displacement on an axis never exceeds the max-velocity
/// bound in magnitude, whatever velocity has accumulated.
pub proof fn lemma_displacement_within_max(v: int, max: int, dt: int)
    requires
        0 <= max,
    ensures
        -max <= displacement(v, max, dt) <= max,
{
}

/// Law: a zero timestep is the identity on the hero — `update` with `dt = 0`
/// leaves the position (and everything else) unchanged.
pub proof fn lemma_update_zero_dt(h: Hero)
    requires
        h.wf(),
    ensures
        hero_after_update(h, 0) == h,
{
    assert(h.curr_velocity.x as int * 0 == 0);
    assert(h.curr_velocity.y as int * 0 == 0);
    assert(pos_after(h.topleft, h.curr_velocity, h.max_velocity, 0) == h.topleft);
}

} // verus!
