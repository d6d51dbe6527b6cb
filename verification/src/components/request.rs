//! The request panel: a bar of tabs and the body of the selected one.

use crate::action::Action;
use crate::components::Component;
use crate::config::{Config, ConfigView};
use crate::event::{KeyCode, KeyEvent, KeyEventKind, MouseEvent};
use crate::geometry::Rect;
use crate::layout::{
    follows_wishes, has_one_filler, is_plain, is_row_of, lengths, lie_inside, others, size_along,
    spans_across, split, Constraint, Direction,
};
use tokio::sync::mpsc::UnboundedSender;
use vstd::prelude::*;

verus! {

/// The tabs of the request panel, from left to right.
#[derive(Clone, Copy, Debug, PartialEq, Eq, Hash, Structural)]
pub enum SelectedTab {
    Query,
    Body,
    Headers,
    Auth,
}

/// The colour family in which a tab is drawn.
#[derive(Clone, Copy, Debug, PartialEq, Eq, Hash, Structural)]
pub enum Palette {
    Blue,
    Green,
    Yellow,
    Red,
}

impl Default for SelectedTab {
    fn default() -> (tab: SelectedTab)
        ensures
            tab == SelectedTab::Query,
    {
        SelectedTab::Query
    }
}

impl SelectedTab {
    /// The number of tabs.
    pub const COUNT: usize = 4;

    /// The place of the tab in the bar, counted from zero.
    pub open spec fn spec_index(self) -> usize {
        match self {
            SelectedTab::Query => 0,
            SelectedTab::Body => 1,
            SelectedTab::Headers => 2,
            SelectedTab::Auth => 3,
        }
    }

    /// The tab at place `index`, if the bar is that long.
    pub open spec fn spec_from_repr(index: usize) -> Option<SelectedTab> {
        if index == 0 {
            Some(SelectedTab::Query)
        } else if index == 1 {
            Some(SelectedTab::Body)
        } else if index == 2 {
            Some(SelectedTab::Headers)
        } else if index == 3 {
            Some(SelectedTab::Auth)
        } else {
            None
        }
    }

    /// The tab to the left, or the tab itself when it is the first.
    pub open spec fn spec_previous(self) -> SelectedTab {
        match self {
            SelectedTab::Query => SelectedTab::Query,
            SelectedTab::Body => SelectedTab::Query,
            SelectedTab::Headers => SelectedTab::Body,
            SelectedTab::Auth => SelectedTab::Headers,
        }
    }

    /// The tab to the right, or the tab itself when it is the last.
    pub open spec fn spec_next(self) -> SelectedTab {
        match self {
            SelectedTab::Query => SelectedTab::Body,
            SelectedTab::Body => SelectedTab::Headers,
            SelectedTab::Headers => SelectedTab::Auth,
            SelectedTab::Auth => SelectedTab::Auth,
        }
    }

    pub open spec fn spec_palette(self) -> Palette {
        match self {
            SelectedTab::Query => Palette::Blue,
            SelectedTab::Body => Palette::Green,
            SelectedTab::Headers => Palette::Yellow,
            SelectedTab::Auth => Palette::Red,
        }
    }

    /// The tab's name.
    pub open spec fn name(self) -> Seq<char> {
        match self {
            SelectedTab::Query => "Query"@,
            SelectedTab::Body => "Body"@,
            SelectedTab::Headers => "Headers"@,
            SelectedTab::Auth => "Auth"@,
        }
    }

    /// The tab's name as the bar shows it, with two blanks on either side.
    pub open spec fn title_text(self) -> Seq<char> {
        seq![' ', ' '] + self.name() + seq![' ', ' ']
    }

    /// All tabs from left to right.
    pub open spec fn spec_all() -> Seq<SelectedTab> {
        seq![SelectedTab::Query, SelectedTab::Body, SelectedTab::Headers, SelectedTab::Auth]
    }

    #[verifier::when_used_as_spec(spec_index)]
    pub fn index(self) -> (index: usize)
        ensures
            index == self.spec_index(),
            index < SelectedTab::COUNT,
    {
        match self {
            SelectedTab::Query => 0,
            SelectedTab::Body => 1,
            SelectedTab::Headers => 2,
            SelectedTab::Auth => 3,
        }
    }

    #[verifier::when_used_as_spec(spec_from_repr)]
    pub fn from_repr(index: usize) -> (tab: Option<SelectedTab>)
        ensures
            tab == SelectedTab::spec_from_repr(index),
            tab is Some <==> index < SelectedTab::COUNT,
            tab matches Some(t) ==> t.spec_index() == index,
    {
        if index == 0 {
            Some(SelectedTab::Query)
        } else if index == 1 {
            Some(SelectedTab::Body)
        } else if index == 2 {
            Some(SelectedTab::Headers)
        } else if index == 3 {
            Some(SelectedTab::Auth)
        } else {
            None
        }
    }

    /// Moves one tab to the left and stays on the first tab.
    #[verifier::when_used_as_spec(spec_previous)]
    pub fn previous(self) -> (tab: SelectedTab)
        ensures
            tab == self.spec_previous(),
            tab.spec_index() == if self.spec_index() == 0 {
                0
            } else {
                self.spec_index() - 1
            },
    {
        let current_idx: usize = self.index();
        let previous_idx: usize = current_idx.saturating_sub(1);
        match SelectedTab::from_repr(previous_idx) {
            Some(tab) => tab,
            None => self,
        }
    }

    /// Moves one tab to the right and stays on the last tab.
    #[verifier::when_used_as_spec(spec_next)]
    pub fn next(self) -> (tab: SelectedTab)
        ensures
            tab == self.spec_next(),
            tab.spec_index() == if self.spec_index() + 1 == SelectedTab::COUNT {
                self.spec_index() as int
            } else {
                self.spec_index() + 1
            },
    {
        let current_idx: usize = self.index();
        let next_idx: usize = current_idx.saturating_add(1);
        match SelectedTab::from_repr(next_idx) {
            Some(tab) => tab,
            None => self,
        }
    }

    #[verifier::when_used_as_spec(spec_palette)]
    pub fn palette(self) -> (palette: Palette)
        ensures
            palette == self.spec_palette(),
    {
        match self {
            SelectedTab::Query => Palette::Blue,
            SelectedTab::Body => Palette::Green,
            SelectedTab::Headers => Palette::Yellow,
            SelectedTab::Auth => Palette::Red,
        }
    }

    pub fn as_str(self) -> (name: &'static str)
        ensures
            name@ == self.name(),
    {
        match self {
            SelectedTab::Query => "Query",
            SelectedTab::Body => "Body",
            SelectedTab::Headers => "Headers",
            SelectedTab::Auth => "Auth",
        }
    }

    /// The tab's name as an owned string.
    #[allow(clippy::inherent_to_string)]
    pub fn to_string(&self) -> (name: String)
        ensures
            name@ == self.name(),
    {
        self.as_str().to_owned()
    }

    /// The text of the tab's title in the bar.
    pub fn title(self) -> (title: String)
        ensures
            title@ == self.title_text(),
    {
        let mut title = String::new();
        title.push(' ');
        title.push(' ');
        title.append(self.as_str());
        title.push(' ');
        title.push(' ');
        title
    }

    /// All tabs from left to right.
    pub fn all() -> (tabs: Vec<SelectedTab>)
        ensures
            tabs@ == SelectedTab::spec_all(),
    {
        let mut tabs: Vec<SelectedTab> = Vec::new();
        tabs.push(SelectedTab::Query);
        tabs.push(SelectedTab::Body);
        tabs.push(SelectedTab::Headers);
        tabs.push(SelectedTab::Auth);
        tabs
    }
}

/// The tab that is selected after `key` reached the panel: a press of Left
/// moves one tab to the left, a press of Right one to the right, both stop at
/// the ends of the bar; any other key leaves the selection alone.
pub open spec fn tab_after_key(tab: SelectedTab, key: KeyEvent) -> SelectedTab {
    if key.kind == KeyEventKind::Press && key.code == KeyCode::Left {
        tab.spec_previous()
    } else if key.kind == KeyEventKind::Press && key.code == KeyCode::Right {
        tab.spec_next()
    } else {
        tab
    }
}

/// The tab that is selected after the keys of `keys` reached the panel one
/// after the other.
pub open spec fn tab_after_keys(tab: SelectedTab, keys: Seq<KeyEvent>) -> SelectedTab
    decreases keys.len(),
{
    if keys.len() == 0 {
        tab
    } else {
        tab_after_key(tab_after_keys(tab, keys.drop_last()), keys.last())
    }
}

/// Whether `key` is a press of Left or of Right.
pub open spec fn is_tab_press(key: KeyEvent) -> bool {
    key.kind == KeyEventKind::Press && (key.code == KeyCode::Left || key.code == KeyCode::Right)
}

/// However many times Left and Right are pressed, starting on the first tab,
/// the selection stays on the bar, and each press moves it by exactly one
/// place towards the side of the key or, at that end of the bar, not at all.
pub proof fn lemma_tab_cursor_is_clamped(keys: Seq<KeyEvent>, k: int)
    requires
        0 <= k < keys.len(),
        forall|i: int| 0 <= i < keys.len() ==> is_tab_press(#[trigger] keys[i]),
    ensures
        ({
            let before = tab_after_keys(SelectedTab::Query, keys.take(k)).spec_index() as int;
            let after = tab_after_keys(SelectedTab::Query, keys.take(k + 1)).spec_index() as int;
            &&& 0 <= before < SelectedTab::COUNT
            &&& 0 <= after < SelectedTab::COUNT
            &&& keys[k].code == KeyCode::Left ==> after == if before == 0 {
                0
            } else {
                before - 1
            }
            &&& keys[k].code == KeyCode::Right ==> after == if before == SelectedTab::COUNT - 1 {
                before
            } else {
                before + 1
            }
        }),
{
    let longer = keys.take(k + 1);
    assert(longer.drop_last() =~= keys.take(k));
}

/// What a draw pass of the request panel hands to the painter: the row of the
/// tab bar, the area of the selected tab's body, the row of the footer, and
/// the tab that is selected.
#[derive(Clone, Copy, Debug, PartialEq, Eq, Structural)]
pub struct RequestFrame {
    pub header_area: Rect,
    pub body_area: Rect,
    pub footer_area: Rect,
    pub selected: SelectedTab,
}

/// The rows of the panel in an area of at least two rows: the tab bar is the
/// first row, the footer the last, and the body all that lies between them.
pub open spec fn request_layout(area: Rect) -> (Rect, Rect, Rect) {
    (
        Rect { x: area.x, y: area.y, width: area.width, height: 1 },
        Rect {
            x: area.x,
            y: (area.y + 1) as u16,
            width: area.width,
            height: (area.spec_rows() - 2) as u16,
        },
        Rect {
            x: area.x,
            y: (area.y + area.spec_rows() - 1) as u16,
            width: area.width,
            height: 1,
        },
    )
}

impl RequestFrame {
    /// Whether the frame fits `area`: tab bar, body and footer are rows of
    /// `area`, and where `area` has two rows or more they are those of
    /// `request_layout`.
    pub open spec fn fits(self, area: Rect) -> bool {
        &&& is_row_of(self.header_area, area)
        &&& is_row_of(self.body_area, area)
        &&& is_row_of(self.footer_area, area)
        &&& area.spec_rows() >= 2 ==> (self.header_area, self.body_area, self.footer_area)
            == request_layout(area)
    }

    /// Whether the frame is a layout of `area` with `tab` selected.
    pub open spec fn lays_out(self, area: Rect, tab: SelectedTab) -> bool {
        self.selected == tab && self.fits(area)
    }
}

/// What the solver's rows are for the constraints of the panel.
proof fn lemma_request_rows(area: Rect, rows: Seq<Rect>)
    requires
        rows.len() == 3,
        spans_across(Direction::Vertical, area, rows),
        lie_inside(Direction::Vertical, area, rows),
        follows_wishes(Direction::Vertical, request_constraints(), area, rows),
    ensures
        is_row_of(rows[0], area),
        is_row_of(rows[1], area),
        is_row_of(rows[2], area),
        area.spec_rows() >= 2 ==> (rows[0], rows[1], rows[2]) == request_layout(area),
{
    let wishes = request_constraints();
    let two = seq![Constraint::Length(1), Constraint::Min(0)];
    let one = seq![Constraint::Length(1)];
    assert(wishes.drop_last() =~= two);
    assert(two.drop_last() =~= one);
    assert(one.drop_last() =~= Seq::<Constraint>::empty());
    let none = Seq::<Constraint>::empty();
    assert(lengths(none) == 0 && others(none) == 0);
    assert(one.last() == Constraint::Length(1));
    assert(lengths(one) == 1 && others(one) == 0);
    assert(two.last() == Constraint::Min(0));
    assert(wishes.last() == Constraint::Length(1));
    assert(lengths(two) == 1 && others(two) == 1);
    assert(lengths(wishes) == 2 && others(wishes) == 1);
    assert(is_plain(wishes));
    assert(has_one_filler(wishes));
    if area.spec_rows() >= 2 {
        assert(rows[1] == rows[0int + 1]);
        assert(rows[2] == rows[1int + 1]);
        assert(wishes[0] == Constraint::Length(1));
        assert(wishes[2] == Constraint::Length(1));
        assert(size_along(Direction::Vertical, rows[0]) == 1);
        assert(size_along(Direction::Vertical, rows[2]) == 1);
        assert(rows.last() == rows[2]);
    }
}

/// What the rows of the panel ask for: one line for the tab bar, one line for
/// the footer, and what is left between them for the body.
pub open spec fn request_constraints() -> Seq<Constraint> {
    seq![Constraint::Length(1), Constraint::Min(0), Constraint::Length(1)]
}

/// The constraints of the panel's rows, from top to bottom.
pub fn request_rows() -> (constraints: Vec<Constraint>)
    ensures
        constraints@ == request_constraints(),
{
    let mut constraints: Vec<Constraint> = Vec::new();
    constraints.push(Constraint::Length(1));
    constraints.push(Constraint::Min(0));
    constraints.push(Constraint::Length(1));
    constraints
}

/// The frame of the panel from its three rows: the first is the tab bar, the
/// second the body, the third the footer.
pub fn request_frame(rows: &Vec<Rect>, selected: SelectedTab) -> (frame: RequestFrame)
    requires
        rows@.len() == 3,
    ensures
        frame == (RequestFrame {
            header_area: rows@[0],
            body_area: rows@[1],
            footer_area: rows@[2],
            selected,
        }),
{
    RequestFrame { header_area: rows[0], body_area: rows[1], footer_area: rows[2], selected }
}

/// The request panel.
pub struct Request {
    command_tx: Option<UnboundedSender<Action>>,
    config: Config,
    selected_tab: SelectedTab,
}

/// The request panel as contracts see it.
pub struct RequestView {
    pub sender: Option<UnboundedSender<Action>>,
    pub config: ConfigView,
    pub tab: SelectedTab,
}

impl View for Request {
    type V = RequestView;

    closed spec fn view(&self) -> RequestView {
        RequestView { sender: self.command_tx, config: self.config@, tab: self.selected_tab }
    }
}

impl Default for Request {
    fn default() -> (request: Request)
        ensures
            request@ == Request::initial(),
    {
        Request::new()
    }
}

impl Request {
    /// The panel as it starts: the first tab selected, no bindings, no handle.
    pub open spec fn initial() -> RequestView {
        RequestView {
            sender: None,
            config: ConfigView { bindings: Seq::empty() },
            tab: SelectedTab::Query,
        }
    }

    pub fn new() -> (request: Request)
        ensures
            request@ == Request::initial(),
    {
        let request = Request {
            command_tx: None,
            config: Config::new(),
            selected_tab: SelectedTab::Query,
        };
        request
    }

    /// The tab that is selected.
    pub fn selected_tab(&self) -> (tab: SelectedTab)
        ensures
            tab == self@.tab,
    {
        self.selected_tab
    }

    /// The handle that the panel was given last.
    pub fn action_sender(&self) -> (tx: &Option<UnboundedSender<Action>>)
        ensures
            *tx == self@.sender,
    {
        &self.command_tx
    }

    /// The configuration that the panel was given last.
    pub fn config(&self) -> (config: &Config)
        ensures
            config@ == self@.config,
    {
        &self.config
    }

    /// Selects the tab to the right, if there is one.
    pub fn next_tab(&mut self)
        ensures
            final(self)@ == (RequestView { tab: old(self)@.tab.spec_next(), ..old(self)@ }),
    {
        self.selected_tab = self.selected_tab.next();
    }

    /// Selects the tab to the left, if there is one.
    pub fn previous_tab(&mut self)
        ensures
            final(self)@ == (RequestView { tab: old(self)@.tab.spec_previous(), ..old(self)@ }),
    {
        self.selected_tab = self.selected_tab.previous();
    }
}

impl Component for Request {
    type Frame = RequestFrame;

    fn register_action_handler(&mut self, tx: UnboundedSender<Action>)
        ensures
            final(self)@ == (RequestView { sender: Some(tx), ..old(self)@ }),
    {
        self.command_tx = Some(tx);
    }

    fn register_config_handler(&mut self, config: Config)
        ensures
            final(self)@ == (RequestView { config: config@, ..old(self)@ }),
    {
        self.config = config;
    }

    /// Left and Right move the selection; no key asks anything of the rest of
    /// the application.
    fn handle_key_event(&mut self, key: KeyEvent) -> (follow_up: Option<Action>)
        ensures
            follow_up is None,
            final(self)@ == (RequestView { tab: tab_after_key(old(self)@.tab, key), ..old(self)@ }),
    {
        if key.kind == KeyEventKind::Press {
            if key.code == KeyCode::Left {
                self.previous_tab();
            } else if key.code == KeyCode::Right {
                self.next_tab();
            }
        }
        None
    }

    /// The pointer does nothing to the panel.
    fn handle_mouse_event(&mut self, mouse: MouseEvent) -> (follow_up: Option<Action>)
        ensures
            follow_up is None,
            final(self)@ == old(self)@,
    {
        None
    }

    /// No action changes the panel.
    fn update(&mut self, action: Action) -> (follow_up: Option<Action>)
        ensures
            follow_up is None,
            final(self)@ == old(self)@,
    {
        None
    }

    /// Splits `area` into rows by `request_rows` and hands them out as
    /// `request_frame` orders them. In an area of two rows or more the rows
    /// are those of `request_layout`; in a smaller one, where tab bar and
    /// footer compete for the room, each row is as wide as `area` and lies
    /// inside it. The panel itself stays as it is.
    fn draw(&mut self, area: Rect) -> (frame: RequestFrame)
        ensures
            frame.lays_out(area, old(self)@.tab),
            final(self)@ == old(self)@,
    {
        let constraints = request_rows();
        let rows = split(Direction::Vertical, &constraints, area);
        proof {
            lemma_request_rows(area, rows@);
        }
        request_frame(&rows, self.selected_tab)
    }
}

} // verus!
