//! The application loop as a state machine: each action taken from the bus
//! moves the loop to its next state and yields the effects that the caller
//! has to carry out on the terminal, the bus and the transport.

use crate::action::{Action, ActionView};
use crate::components::home::{Home, HomeFrame, HomeView, ResponseStateView};
use crate::components::Component;
use crate::config::Config;
use crate::event::MouseEvent;
use crate::geometry::Rect;
use crate::regions::{
    first_hit, first_hit_from, lemma_first_hit_inside, lemma_first_hit_outside, Region,
};
use crate::transport::{completion_action, RequestSpec, RequestSpecView};
use tokio::sync::mpsc::UnboundedSender;
use vstd::prelude::*;

verus! {

/// The component that owns keyboard input. Exactly one mode is active at a
/// time.
#[derive(Clone, Copy, Debug, PartialEq, Eq, Hash, Structural)]
pub enum Mode {
    Home,
    Url,
    Request,
}

impl Default for Mode {
    fn default() -> (mode: Mode)
        ensures
            mode == Mode::Home,
    {
        Mode::Home
    }
}

/// Where the loop stands in its life.
#[derive(Clone, Copy, Debug, PartialEq, Eq, Structural)]
pub enum LoopState {
    /// The components exist; the terminal is not taken over yet.
    Initializing,
    /// Actions are taken from the bus and dispatched.
    Running,
    /// The terminal was given back for the time being.
    Suspended,
    /// The loop is over.
    Exiting,
}

/// What the caller of the loop has to carry out after a step.
#[derive(Debug, PartialEq, Eq)]
pub enum Effect {
    /// Take over the terminal: raw mode and the alternate screen.
    EnterTerminal,
    /// Give the terminal back in the mode it had.
    LeaveTerminal,
    /// Wipe the screen.
    ClearScreen,
    /// Fit the frame buffer to a terminal of this width and height.
    Resize(u16, u16),
    /// Paint one frame with this layout.
    Paint(HomeFrame),
    /// Put the action on the bus, behind what is already there.
    Emit(Action),
    /// Have the transport carry the request, off the loop.
    Schedule(RequestSpec),
    /// Leave the loop.
    Stop,
}

/// An effect as contracts see it.
pub enum EffectView {
    EnterTerminal,
    LeaveTerminal,
    ClearScreen,
    Resize(u16, u16),
    Paint(HomeFrame),
    Emit(ActionView),
    Schedule(RequestSpecView),
    Stop,
}

impl View for Effect {
    type V = EffectView;

    open spec fn view(&self) -> EffectView {
        match self {
            Effect::EnterTerminal => EffectView::EnterTerminal,
            Effect::LeaveTerminal => EffectView::LeaveTerminal,
            Effect::ClearScreen => EffectView::ClearScreen,
            Effect::Resize(width, height) => EffectView::Resize(*width, *height),
            Effect::Paint(frame) => EffectView::Paint(*frame),
            Effect::Emit(action) => EffectView::Emit(action@),
            Effect::Schedule(request) => EffectView::Schedule(request@),
            Effect::Stop => EffectView::Stop,
        }
    }
}

/// The effects of a step, each by its view, in the order in which they are to
/// be carried out.
pub open spec fn effect_views(effects: Seq<Effect>) -> Seq<EffectView> {
    Seq::new(effects.len(), |i: int| effects[i]@)
}

/// The whole screen of a terminal of the given size.
pub open spec fn screen(width: u16, height: u16) -> Rect {
    Rect { x: 0, y: 0, width, height }
}

/// The effect of a follow-up action: it goes back on the bus.
pub open spec fn emitted(follow_up: Option<ActionView>) -> Seq<EffectView> {
    match follow_up {
        Some(action) => seq![EffectView::Emit(action)],
        None => Seq::empty(),
    }
}

/// The follow-up action that `effects` put back on the bus, where they do
/// nothing else.
pub open spec fn follow_up_of(effects: Seq<EffectView>) -> Option<ActionView> {
    if effects.len() == 1 && effects[0] is Emit {
        Some(effects[0]->Emit_0)
    } else {
        None
    }
}

/// The tick count after one more tick. The count wraps around.
pub open spec fn next_tick(ticks: u64) -> u64 {
    if ticks == u64::MAX {
        0
    } else {
        (ticks + 1) as u64
    }
}

/// The application: the state of the loop, the size of the terminal, the
/// number of ticks seen, and the component tree.
pub struct App {
    state: LoopState,
    width: u16,
    height: u16,
    ticks: u64,
    home: Home,
}

/// The application as contracts see it.
pub struct AppView {
    pub state: LoopState,
    pub width: u16,
    pub height: u16,
    pub ticks: u64,
    pub home: HomeView,
}

impl View for App {
    type V = AppView;

    closed spec fn view(&self) -> AppView {
        AppView {
            state: self.state,
            width: self.width,
            height: self.height,
            ticks: self.ticks,
            home: self.home@,
        }
    }
}

impl AppView {
    /// The application as it is made for a terminal of the given size.
    pub open spec fn initial(width: u16, height: u16) -> AppView {
        AppView {
            state: LoopState::Initializing,
            width,
            height,
            ticks: 0,
            home: HomeView::initial(),
        }
    }

    /// While the loop runs, the registry of clickable regions is in step with
    /// the terminal: the last draw pass laid out the whole screen at its
    /// present size, and the registry holds the regions of a frame that fits
    /// that screen, and no others.
    pub open spec fn in_sync(self) -> bool {
        self.state == LoopState::Running ==> {
            &&& self.home.drawn_area == Some(screen(self.width, self.height))
            &&& exists|frame: HomeFrame| #[trigger]
                frame.fits(screen(self.width, self.height)) && self.home.regions
                    == frame.regions()
        }
    }

    /// Whether `effects` end with the painting of a frame that lays out the
    /// whole screen, and the components are in `home` after that draw pass.
    pub open spec fn redrawn(self, home: HomeView, effects: Seq<EffectView>) -> bool {
        &&& effects.len() >= 1
        &&& effects.last() matches EffectView::Paint(frame)
        &&& self.home.after_draw(screen(self.width, self.height), home, frame)
    }

    /// One update pass: the action is broadcast to the components. A request
    /// that is being sent is also handed to the transport.
    pub open spec fn after_broadcast(
        self,
        action: ActionView,
        post: AppView,
        effects: Seq<EffectView>,
    ) -> bool {
        &&& post == (AppView {
            ticks: if action is Tick {
                next_tick(self.ticks)
            } else {
                self.ticks
            },
            home: self.home.after_update(action),
            ..self
        })
        &&& effects == match action {
            ActionView::SendRequest(request) => seq![EffectView::Schedule(request)],
            _ => Seq::empty(),
        }
    }

    /// Whether a step on `action` takes the application from `self` to `post`
    /// with `effects`.
    ///
    /// Before the loop was started and after it ended nothing is dispatched,
    /// except that Quit ends a loop that was not started. While the loop
    /// runs: Quit ends it; Suspend gives the terminal back; ClearScreen wipes
    /// the screen; Resize stores the new size and at once lays out and paints
    /// the screen anew, so that the clickable regions are those of the new
    /// size before any other action is taken; Render paints one frame; a key
    /// goes to the components by the focus, a pointer event by the clickable
    /// regions, and what a component answers goes back on the bus; every
    /// other action is one update pass. While the loop is suspended the
    /// terminal is not touched: Resume takes it over again, wipes it and
    /// paints; Quit ends the loop; Resize only stores the size; input, Render
    /// and ClearScreen are dropped; every other action is one update pass.
    pub open spec fn after(self, action: ActionView, post: AppView, effects: Seq<EffectView>)
        -> bool {
        match self.state {
            LoopState::Initializing => match action {
                ActionView::Quit => post == (AppView { state: LoopState::Exiting, ..self })
                    && effects == seq![EffectView::Stop],
                _ => post == self && effects == Seq::<EffectView>::empty(),
            },
            LoopState::Exiting => post == self && effects == Seq::<EffectView>::empty(),
            LoopState::Running => match action {
                ActionView::Quit => post == (AppView { state: LoopState::Exiting, ..self })
                    && effects == seq![EffectView::Stop],
                ActionView::Suspend => post == (AppView { state: LoopState::Suspended, ..self })
                    && effects == seq![EffectView::LeaveTerminal],
                ActionView::Resume => post == self && effects == Seq::<EffectView>::empty(),
                ActionView::ClearScreen => post == self && effects == seq![EffectView::ClearScreen],
                ActionView::Resize(width, height) => {
                    &&& post == (AppView { width, height, home: post.home, ..self })
                    &&& effects.len() == 2
                    &&& effects[0] == EffectView::Resize(width, height)
                    &&& (AppView { width, height, ..self }).redrawn(post.home, effects)
                },
                ActionView::Render => {
                    &&& post == (AppView { home: post.home, ..self })
                    &&& effects.len() == 1
                    &&& self.redrawn(post.home, effects)
                },
                ActionView::Key(key) => {
                    &&& post == (AppView { home: post.home, ..self })
                    &&& effects == emitted(follow_up_of(effects))
                    &&& self.home.after_key(key, post.home, follow_up_of(effects))
                },
                ActionView::Mouse(mouse) => post == (AppView {
                    home: self.home.after_mouse(mouse),
                    ..self
                }) && effects == Seq::<EffectView>::empty(),
                _ => self.after_broadcast(action, post, effects),
            },
            LoopState::Suspended => match action {
                ActionView::Quit => post == (AppView { state: LoopState::Exiting, ..self })
                    && effects == seq![EffectView::Stop],
                ActionView::Resume => {
                    &&& post == (AppView { state: LoopState::Running, home: post.home, ..self })
                    &&& effects.len() == 3
                    &&& effects[0] == EffectView::EnterTerminal
                    &&& effects[1] == EffectView::ClearScreen
                    &&& self.redrawn(post.home, effects)
                },
                ActionView::Resize(width, height) => post == (AppView { width, height, ..self })
                    && effects == Seq::<EffectView>::empty(),
                ActionView::Suspend | ActionView::ClearScreen | ActionView::Render | ActionView::Key(
                    _,
                ) | ActionView::Mouse(_) => post == self && effects == Seq::<EffectView>::empty(),
                _ => self.after_broadcast(action, post, effects),
            },
        }
    }

    /// Whether starting the loop with the handle `tx` and the configuration
    /// `config` takes the application from `self` to `post` with `effects`: a
    /// loop that was not started yet gives handle and configuration to its
    /// components, takes over the terminal, paints the first frame and runs;
    /// any other loop stays as it is.
    pub open spec fn after_start(
        self,
        tx: UnboundedSender<Action>,
        config: crate::config::ConfigView,
        post: AppView,
        effects: Seq<EffectView>,
    ) -> bool {
        if self.state == LoopState::Initializing {
            let registered = HomeView {
                sender: Some(tx),
                config,
                request: crate::components::request::RequestView {
                    sender: post.home.request.sender,
                    config,
                    ..self.home.request
                },
                ..self.home
            };
            &&& post.home.request.sender is Some
            &&& post == (AppView { state: LoopState::Running, home: post.home, ..self })
            &&& effects.len() == 2
            &&& effects[0] == EffectView::EnterTerminal
            &&& (AppView { home: registered, ..self }).redrawn(post.home, effects)
        } else {
            post == self && effects == Seq::<EffectView>::empty()
        }
    }
}

/// A step keeps the clickable regions in step with the size of the terminal:
/// if they were those of a layout of the present size before, they are so
/// afterwards.
pub proof fn lemma_step_keeps_sync(
    pre: AppView,
    action: ActionView,
    post: AppView,
    effects: Seq<EffectView>,
)
    requires
        pre.in_sync(),
        pre.after(action, post, effects),
    ensures
        post.in_sync(),
{
    if post.state == LoopState::Running {
        let area = screen(post.width, post.height);
        if pre.state == LoopState::Running && !(action is Resize) && !(action is Render) {
            let kept = choose|frame: HomeFrame| #[trigger]
                frame.fits(screen(pre.width, pre.height)) && pre.home.regions == frame.regions();
            assert(kept.fits(area) && post.home.regions == kept.regions());
        } else {
            let painted = effects.last()->Paint_0;
            assert(painted.fits(area) && post.home.regions == painted.regions());
        }
    }
}

/// A loop that was started has its clickable regions in step with the size of
/// the terminal.
pub proof fn lemma_start_is_in_sync(
    pre: AppView,
    tx: UnboundedSender<Action>,
    config: crate::config::ConfigView,
    post: AppView,
    effects: Seq<EffectView>,
)
    requires
        pre.in_sync(),
        pre.after_start(tx, config, post, effects),
    ensures
        post.in_sync(),
{
    if pre.state == LoopState::Initializing {
        let painted = effects.last()->Paint_0;
        assert(painted.fits(screen(post.width, post.height)) && post.home.regions
            == painted.regions());
    }
}

/// While the loop runs, a button that goes down on a cell gives the focus to
/// the mode of the first registered region that contains the cell, and leaves
/// the focus where it is when no region contains it. Nothing else changes and
/// nothing is put on the bus.
pub proof fn lemma_click_selects_first_region(
    pre: AppView,
    mouse: MouseEvent,
    post: AppView,
    effects: Seq<EffectView>,
)
    requires
        pre.state == LoopState::Running,
        mouse.kind is Down,
        pre.after(ActionView::Mouse(mouse), post, effects),
    ensures
        post.home.mode == match first_hit(pre.home.regions, mouse.spec_position()) {
            Some(mode) => mode,
            None => pre.home.mode,
        },
        post == (AppView { home: HomeView { mode: post.home.mode, ..pre.home }, ..pre }),
        effects.len() == 0,
{
}

/// While the loop runs, a button that goes down inside a registered region,
/// and outside every region registered before it, gives the focus to the mode
/// of that region.
pub proof fn lemma_click_inside_region(
    pre: AppView,
    mouse: MouseEvent,
    i: int,
    post: AppView,
    effects: Seq<EffectView>,
)
    requires
        pre.state == LoopState::Running,
        mouse.kind is Down,
        0 <= i < pre.home.regions.len(),
        pre.home.regions[i].area.spec_contains(mouse.spec_position()),
        forall|j: int| 0 <= j < i ==> !pre.home.regions[j].area.spec_contains(mouse.spec_position()),
        pre.after(ActionView::Mouse(mouse), post, effects),
    ensures
        post.home.mode == pre.home.regions[i].mode,
{
    lemma_first_hit_inside(pre.home.regions, mouse.spec_position(), i);
}

/// While the loop runs, a button that goes down outside all registered
/// regions changes nothing at all.
pub proof fn lemma_click_outside_regions(
    pre: AppView,
    mouse: MouseEvent,
    post: AppView,
    effects: Seq<EffectView>,
)
    requires
        pre.state == LoopState::Running,
        mouse.kind is Down,
        forall|j: int|
            0 <= j < pre.home.regions.len() ==> !pre.home.regions[j].area.spec_contains(
                mouse.spec_position(),
            ),
        pre.after(ActionView::Mouse(mouse), post, effects),
    ensures
        post == pre,
        effects.len() == 0,
{
    lemma_first_hit_outside(pre.home.regions, mouse.spec_position());
}

/// The clickable regions of a screen of five rows or more: the URL input is
/// rows two to four across the whole width, the request panel the left half
/// of the rows below.
pub open spec fn screen_regions(width: u16, height: u16) -> Seq<Region> {
    seq![
        Region { mode: Mode::Url, area: Rect { x: 0, y: 2, width, height: 3 } },
        Region {
            mode: Mode::Request,
            area: Rect {
                x: 0,
                y: 5,
                width: ((width + 1) / 2) as u16,
                height: (height - 5) as u16,
            },
        },
    ]
}

/// While the loop runs in step with a terminal of five rows or more, the
/// registry holds the regions of that screen, which do not overlap: a button
/// that goes down in rows two to four gives the focus to the URL input, one
/// that goes down in the left half below them gives it to the request panel,
/// and one that goes down anywhere else leaves the focus where it is.
pub proof fn lemma_click_on_screen(
    pre: AppView,
    mouse: MouseEvent,
    post: AppView,
    effects: Seq<EffectView>,
)
    requires
        pre.state == LoopState::Running,
        pre.in_sync(),
        pre.height >= 5,
        mouse.kind is Down,
        pre.after(ActionView::Mouse(mouse), post, effects),
    ensures
        pre.home.regions == screen_regions(pre.width, pre.height),
        post.home.mode == if 2 <= mouse.row < 5 && mouse.column < pre.width {
            Mode::Url
        } else if 5 <= mouse.row < pre.height && mouse.column < (pre.width + 1) / 2 {
            Mode::Request
        } else {
            pre.home.mode
        },
{
    let area = screen(pre.width, pre.height);
    let frame = choose|frame: HomeFrame| #[trigger]
        frame.fits(area) && pre.home.regions == frame.regions();
    let regions = screen_regions(pre.width, pre.height);
    assert(area.spec_rows() == pre.height && area.spec_columns() == pre.width);
    assert(frame.regions() =~= regions);
    let p = mouse.spec_position();
    assert(first_hit_from(regions, p, 2) is None);
    assert(first_hit_from(regions, p, 1) == if regions[1].area.spec_contains(p) {
        Some(Mode::Request)
    } else {
        None
    });
}

/// After a Resize the clickable regions are those of the frame that the
/// Resize painted for the new size, and those alone: a button that then goes
/// down is resolved against that frame, whatever was registered before.
pub proof fn lemma_click_after_resize(
    pre: AppView,
    width: u16,
    height: u16,
    resized: AppView,
    resize_effects: Seq<EffectView>,
    mouse: MouseEvent,
    post: AppView,
    mouse_effects: Seq<EffectView>,
)
    requires
        pre.state == LoopState::Running,
        pre.after(ActionView::Resize(width, height), resized, resize_effects),
        mouse.kind is Down,
        resized.after(ActionView::Mouse(mouse), post, mouse_effects),
    ensures
        resize_effects.len() == 2,
        resize_effects[1] is Paint,
        resized.home.drawn_area == Some(screen(width, height)),
        resized.home.regions == resize_effects[1]->Paint_0.regions(),
        post.home.mode == match first_hit(
            resize_effects[1]->Paint_0.regions(),
            mouse.spec_position(),
        ) {
            Some(mode) => mode,
            None => pre.home.mode,
        },
{
}

/// A request in flight does not hold the loop up: with the response pane
/// waiting, a Tick is counted and a Render paints, and the loop goes on
/// running.
pub proof fn lemma_loop_runs_while_pending(
    pre: AppView,
    action: ActionView,
    post: AppView,
    effects: Seq<EffectView>,
)
    requires
        pre.state == LoopState::Running,
        pre.home.response is Pending,
        action is Tick || action is Render,
        pre.after(action, post, effects),
    ensures
        post.state == LoopState::Running,
        post.home.response is Pending,
        action is Tick ==> post.ticks == next_tick(pre.ticks) && post.ticks != pre.ticks,
        action is Render ==> effects.len() == 1 && effects[0] is Paint,
{
}

/// A transport error is reported by one RequestFailed action, and the step on
/// that action shows the message in the response pane and leaves the loop
/// running, with nothing more to carry out.
pub proof fn lemma_transport_error_is_not_fatal(
    pre: AppView,
    message: Seq<char>,
    elapsed_ms: u64,
    post: AppView,
    effects: Seq<EffectView>,
)
    requires
        pre.state == LoopState::Running,
        pre.after(completion_action(Err(message), elapsed_ms), post, effects),
    ensures
        completion_action(Err(message), elapsed_ms) == (ActionView::RequestFailed { message }),
        post.state == LoopState::Running,
        post.home.response == (ResponseStateView::Failed { message }),
        effects.len() == 0,
{
}

impl App {
    /// The application for a terminal of the given size, not started yet.
    pub fn new(width: u16, height: u16) -> (app: App)
        ensures
            app@ == AppView::initial(width, height),
            app@.in_sync(),
    {
        App { state: LoopState::Initializing, width, height, ticks: 0, home: Home::new() }
    }

    /// Where the loop stands.
    pub fn state(&self) -> (state: LoopState)
        ensures
            state == self@.state,
    {
        self.state
    }

    /// Whether the loop is dispatching actions.
    pub fn is_running(&self) -> (b: bool)
        ensures
            b == (self@.state == LoopState::Running),
    {
        self.state == LoopState::Running
    }

    /// Whether the loop is over.
    pub fn should_quit(&self) -> (b: bool)
        ensures
            b == (self@.state == LoopState::Exiting),
    {
        self.state == LoopState::Exiting
    }

    /// The size of the terminal, width first.
    pub fn size(&self) -> (size: (u16, u16))
        ensures
            size == (self@.width, self@.height),
    {
        (self.width, self.height)
    }

    /// The number of ticks seen so far.
    pub fn ticks(&self) -> (ticks: u64)
        ensures
            ticks == self@.ticks,
    {
        self.ticks
    }

    /// The root of the component tree.
    pub fn home(&self) -> (home: &Home)
        ensures
            home@ == self@.home,
    {
        &self.home
    }

    /// Lays out and paints the whole screen.
    fn redraw(&mut self, effects: &mut Vec<Effect>)
        ensures
            final(self)@ == (AppView { home: final(self)@.home, ..old(self)@ }),
            final(effects)@.len() == old(effects)@.len() + 1,
            final(effects)@.subrange(0, old(effects)@.len() as int) == old(effects)@,
            old(self)@.redrawn(final(self)@.home, effect_views(final(effects)@)),
    {
        let area = Rect { x: 0, y: 0, width: self.width, height: self.height };
        let frame = self.home.draw(area);
        effects.push(Effect::Paint(frame));
    }

    /// One update pass.
    fn broadcast(&mut self, action: Action) -> (effects: Vec<Effect>)
        requires
            !(action@ is Quit || action@ is Suspend || action@ is Resume || action@ is ClearScreen
                || action@ is Resize || action@ is Render || action@ is Key || action@ is Mouse),
        ensures
            old(self)@.after_broadcast(action@, final(self)@, effect_views(effects@)),
    {
        let mut effects: Vec<Effect> = Vec::new();
        match &action {
            Action::Tick => {
                self.ticks = self.ticks.wrapping_add(1);
            },
            Action::SendRequest(request) => {
                effects.push(Effect::Schedule(request.clone()));
            },
            _ => {},
        }
        match self.home.update(action) {
            Some(follow_up) => {
                effects.push(Effect::Emit(follow_up));
            },
            None => {},
        }
        proof {
            match action@ {
                ActionView::SendRequest(request) => {
                    assert(effect_views(effects@) =~= seq![EffectView::Schedule(request)]);
                },
                _ => {
                    assert(effect_views(effects@) =~= Seq::<EffectView>::empty());
                },
            }
        }
        effects
    }

    /// Starts the loop: the components get the handle to the bus and the
    /// configuration, the terminal is to be taken over, and the first frame
    /// is laid out. A loop that was started before stays as it is.
    pub fn start(&mut self, tx: UnboundedSender<Action>, config: Config) -> (effects: Vec<Effect>)
        ensures
            old(self)@.after_start(tx, config@, final(self)@, effect_views(effects@)),
            old(self)@.in_sync() ==> final(self)@.in_sync(),
    {
        let ghost bindings = config@;
        let effects = self.begin(tx, config);
        proof {
            if old(self)@.in_sync() {
                lemma_start_is_in_sync(old(self)@, tx, bindings, self@, effect_views(effects@));
            }
        }
        effects
    }

    /// Takes one action from the bus.
    pub fn step(&mut self, action: Action) -> (effects: Vec<Effect>)
        ensures
            old(self)@.after(action@, final(self)@, effect_views(effects@)),
            old(self)@.in_sync() ==> final(self)@.in_sync(),
    {
        let ghost taken = action@;
        let effects = self.dispatch(action);
        proof {
            if old(self)@.in_sync() {
                lemma_step_keeps_sync(old(self)@, taken, self@, effect_views(effects@));
            }
        }
        effects
    }

    /// What `start` does.
    fn begin(&mut self, tx: UnboundedSender<Action>, config: Config) -> (effects: Vec<Effect>)
        ensures
            old(self)@.after_start(tx, config@, final(self)@, effect_views(effects@)),
    {
        let mut effects: Vec<Effect> = Vec::new();
        if self.state != LoopState::Initializing {
            assert(effect_views(effects@) =~= Seq::<EffectView>::empty());
            return effects;
        }
        self.home.register_config_handler(config);
        self.home.register_action_handler(tx);
        effects.push(Effect::EnterTerminal);
        self.redraw(&mut effects);
        self.state = LoopState::Running;
        assert(effects@[0] == effects@.subrange(0, 1)[0]);
        effects
    }

    /// What `step` does, by the state of the loop and the action.
    fn dispatch(&mut self, action: Action) -> (effects: Vec<Effect>)
        ensures
            old(self)@.after(action@, final(self)@, effect_views(effects@)),
    {
        let mut effects: Vec<Effect> = Vec::new();
        assert(effect_views(effects@) =~= Seq::<EffectView>::empty());
        match self.state {
            LoopState::Exiting => effects,
            LoopState::Initializing => match action {
                Action::Quit => {
                    self.state = LoopState::Exiting;
                    effects.push(Effect::Stop);
                    assert(effect_views(effects@) =~= seq![EffectView::Stop]);
                    effects
                },
                _ => effects,
            },
            LoopState::Running => match action {
                Action::Quit => {
                    self.state = LoopState::Exiting;
                    effects.push(Effect::Stop);
                    assert(effect_views(effects@) =~= seq![EffectView::Stop]);
                    effects
                },
                Action::Suspend => {
                    self.state = LoopState::Suspended;
                    effects.push(Effect::LeaveTerminal);
                    assert(effect_views(effects@) =~= seq![EffectView::LeaveTerminal]);
                    effects
                },
                Action::Resume => effects,
                Action::ClearScreen => {
                    effects.push(Effect::ClearScreen);
                    assert(effect_views(effects@) =~= seq![EffectView::ClearScreen]);
                    effects
                },
                Action::Resize(width, height) => {
                    self.width = width;
                    self.height = height;
                    effects.push(Effect::Resize(width, height));
                    self.redraw(&mut effects);
                    assert(effects@[0] == effects@.subrange(0, 1)[0]);
                    effects
                },
                Action::Render => {
                    self.redraw(&mut effects);
                    effects
                },
                Action::Key(key) => {
                    match self.home.handle_key_event(key) {
                        Some(follow_up) => {
                            let ghost answer = follow_up@;
                            effects.push(Effect::Emit(follow_up));
                            assert(effect_views(effects@) =~= seq![EffectView::Emit(answer)]);
                        },
                        None => {},
                    }
                    effects
                },
                Action::Mouse(mouse) => {
                    match self.home.handle_mouse_event(mouse) {
                        Some(follow_up) => {
                            effects.push(Effect::Emit(follow_up));
                        },
                        None => {},
                    }
                    effects
                },
                other => self.broadcast(other),
            },
            LoopState::Suspended => match action {
                Action::Quit => {
                    self.state = LoopState::Exiting;
                    effects.push(Effect::Stop);
                    assert(effect_views(effects@) =~= seq![EffectView::Stop]);
                    effects
                },
                Action::Resume => {
                    effects.push(Effect::EnterTerminal);
                    effects.push(Effect::ClearScreen);
                    self.redraw(&mut effects);
                    self.state = LoopState::Running;
                    proof {
                        assert(effects@[0] == effects@.subrange(0, 2)[0]);
                        assert(effects@[1] == effects@.subrange(0, 2)[1]);
                    }
                    effects
                },
                Action::Resize(width, height) => {
                    self.width = width;
                    self.height = height;
                    effects
                },
                Action::Suspend => effects,
                Action::ClearScreen => effects,
                Action::Render => effects,
                Action::Key(_) => effects,
                Action::Mouse(_) => effects,
                other => self.broadcast(other),
            },
        }
    }
}

} // verus!
